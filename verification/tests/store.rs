use ltr::models::test::{AnswerModel, QuestionModel, ResultModel, TestModel};
use ltr::clock::date_today;
use ltr::service::dbservice::{
    answer_args, create_schema, get_by_status, get_result_by_id, populate_answers,
    populate_questions, populate_tests, question_args, question_rows_for, result_from_rows,
    save_new_test, save_new_test_at, save_new_test_on, save_result, save_result_at, status_args, sum_times,
    test_from_rows, update_status, AnswerE, QuestionE, TestE,
};
use ltr::service::sql::{SqlArg, SqlCell, StoreError};
use ltr::service::testservice::{
    get_finished, get_test_by_id, get_to_do, init_conn, init_conn_and_populate, set_finished,
};

fn question(text: &str, answers: [&str; 4], correct: u8) -> QuestionModel {
    QuestionModel::new(
        String::from(text),
        answers.iter().map(|a| String::from(*a)).collect(),
        correct,
    )
}

fn sample_test() -> TestModel {
    TestModel::new(
        String::from("0"),
        String::from("Colours"),
        vec![
            question("Which is warm?", ["blue", "red", "grey", "green"], 1),
            question("Which is cold?", ["blue", "red", "orange", "yellow"], 0),
            question("Which is neither?", ["crimson", "amber", "scarlet", "white"], 3),
        ],
    )
}

fn ids(list: &[(String, String)]) -> Vec<String> {
    list.iter().map(|p| p.0.clone()).collect()
}

#[test]
fn test_query_by_id() {
    let questions = vec![QuestionModel::new(
        String::from(""),
        vec![
            String::from(""),
            String::from(""),
            String::from(""),
            String::from(""),
        ],
        2,
    )];
    let expected = Some(TestModel::new(
        String::from("1"),
        String::from("[2025-03-07] English idioms with a twist"),
        questions,
    ));
    let conn = init_conn().unwrap();
    create_schema(&conn).unwrap();
    populate_tests(&conn);
    let listed = get_to_do(&conn);
    let row = conn
        .query_row("SELECT id, name, date FROM exam WHERE id = ?1", ["1"], |r| {
            Ok(TestE {
                id: r.get::<_, i64>(0)? as usize,
                name: r.get(1)?,
                date: r.get(2)?,
            })
        })
        .unwrap();

    let result = Some(row.to_model(vec![QuestionModel::new(
        String::from(""),
        vec![
            String::from(""),
            String::from(""),
            String::from(""),
            String::from(""),
        ],
        2,
    )]));

    assert_eq!(result, expected);
    assert_eq!(listed[0], (String::from("1"), expected.unwrap().title));
}

#[test]
fn create_schema_twice_leaves_the_store_usable() {
    let conn = init_conn().unwrap();
    assert_eq!(create_schema(&conn), Ok(()));
    assert_eq!(create_schema(&conn), Ok(()));
    assert_eq!(save_new_test(&conn, &sample_test()), Ok(()));
    assert_eq!(create_schema(&conn), Ok(()));
    assert_eq!(get_to_do(&conn).len(), 1);
}

#[test]
fn saved_test_reads_back_the_same() {
    let conn = init_conn().unwrap();
    create_schema(&conn).unwrap();
    let test = sample_test();
    save_new_test(&conn, &test).unwrap();

    let listed = get_to_do(&conn);
    assert_eq!(listed.len(), 1);
    assert_eq!(listed[0].0, "1");
    assert!(listed[0].1.starts_with("["));
    assert!(listed[0].1.ends_with("] Colours"));

    let read = get_test_by_id(&conn, String::from("1")).unwrap();
    assert_eq!(read.id, "1");
    assert_eq!(read.title, "Colours");
    assert_eq!(read.title, test.title);
    assert_eq!(read.questions, test.questions);
}

#[test]
fn saved_test_is_dated_as_asked() {
    let conn = init_conn().unwrap();
    create_schema(&conn).unwrap();
    let test = sample_test();
    assert_eq!(save_new_test_at(&conn, &test, &String::from("2031-02-03")), Ok(()));
    assert_eq!(save_new_test(&conn, &test), Ok(()));
    let listed = get_to_do(&conn);
    assert_eq!(listed[0], (String::from("1"), String::from("[2031-02-03] Colours")));
    assert_eq!(listed[1].0, "2");
    let today = date_today(ltr::clock::unix_seconds()).unwrap();
    assert_eq!(listed[1].1, format!("[{}] Colours", today));
    let second = get_test_by_id(&conn, String::from("2")).unwrap();
    assert_eq!(second.title, "Colours");
    assert_eq!(second.questions, test.questions);
    let mut broken = sample_test();
    broken.questions[0].answers.clear();
    assert_eq!(
        save_new_test_at(&conn, &broken, &String::from("2031-02-03")),
        Err(StoreError::Malformed)
    );
}

#[test]
fn test_is_refused_for_a_clock_without_a_date() {
    let conn = init_conn().unwrap();
    create_schema(&conn).unwrap();
    let test = sample_test();
    assert_eq!(save_new_test_on(&conn, &test, u64::MAX), Err(StoreError::Clock));
    assert!(get_to_do(&conn).is_empty());
    assert_eq!(save_new_test_on(&conn, &test, 86_400), Ok(()));
    assert_eq!(get_to_do(&conn)[0].1, "[1970-01-02] Colours");
    let mut broken = sample_test();
    broken.questions[0].answers.clear();
    assert_eq!(
        save_new_test_on(&conn, &broken, u64::MAX),
        Err(StoreError::Malformed)
    );
}

#[test]
fn dates_are_told_of_clock_readings() {
    assert_eq!(date_today(0), Some(String::from("1970-01-01")));
    assert_eq!(date_today(86_399), Some(String::from("1970-01-01")));
    assert_eq!(date_today(86_400), Some(String::from("1970-01-02")));
    assert_eq!(date_today(1_741_305_600), Some(String::from("2025-03-07")));
    assert_eq!(date_today(951_782_400), Some(String::from("2000-02-29")));
    assert_eq!(date_today(u64::MAX), None);
    assert_eq!(date_today(i64::MAX as u64), None);
    assert_eq!(StoreError::Clock.message(), "a clock without a date");
}

#[test]
fn question_rows_carry_the_number_the_store_returned() {
    let test = sample_test();
    let rows = question_rows_for(&test, &vec![SqlCell::Int(17)]).unwrap();
    assert_eq!(rows.len(), 3);
    for (i, row) in rows.iter().enumerate() {
        assert_eq!(row[0], SqlArg::Int(i as i64 + 1));
        assert_eq!(row[1], SqlArg::Text(test.questions[i].question.clone()));
        assert_eq!(row[6], SqlArg::Int(test.questions[i].correct as i64));
        assert_eq!(row[7], SqlArg::Int(17));
    }
    assert_eq!(question_rows_for(&test, &vec![]), None);
    assert_eq!(question_rows_for(&test, &vec![SqlCell::Null]), None);
    assert_eq!(question_rows_for(&test, &vec![text("17")]), None);
    assert_eq!(
        question_rows_for(&test, &vec![SqlCell::Int(1), SqlCell::Int(2)]),
        None
    );
    let mut broken = sample_test();
    broken.questions[1].answers.pop();
    assert_eq!(question_rows_for(&broken, &vec![SqlCell::Int(17)]), None);
}

#[test]
fn status_is_set_with_the_status_first() {
    assert_eq!(
        status_args("FINISHED", &String::from("4")),
        vec![
            SqlArg::Text(String::from("FINISHED")),
            SqlArg::Text(String::from("4"))
        ]
    );
    let conn = init_conn_and_populate().unwrap();
    assert_eq!(update_status(&conn, String::from("1"), "FINISHED"), Ok(()));
    assert_eq!(ids(&get_to_do(&conn)), vec!["2", "3"]);
    assert_eq!(ids(&get_finished(&conn)), vec!["1", "4", "5", "6", "7"]);
    assert_eq!(update_status(&conn, String::from("1"), "NOT_STARTED"), Ok(()));
    assert_eq!(ids(&get_to_do(&conn)), vec!["1", "2", "3"]);
}

#[test]
fn question_order_follows_the_ordinal_not_the_insertion() {
    let conn = init_conn().unwrap();
    create_schema(&conn).unwrap();
    populate_tests(&conn);
    conn.execute(
        "INSERT INTO question (number, text, a1, a2, a3, a4, correct, examid)
         VALUES (2, 'second', 'a', 'b', 'c', 'd', 0, 1)",
        (),
    )
    .unwrap();
    conn.execute(
        "INSERT INTO question (number, text, a1, a2, a3, a4, correct, examid)
         VALUES (1, 'first', 'a', 'b', 'c', 'd', 3, 1)",
        (),
    )
    .unwrap();
    let read = get_test_by_id(&conn, String::from("1")).unwrap();
    assert_eq!(read.questions.len(), 2);
    assert_eq!(read.questions[0].question, "first");
    assert_eq!(read.questions[0].correct, 3);
    assert_eq!(read.questions[1].question, "second");
}

#[test]
fn missing_test_is_no_error() {
    let conn = init_conn_and_populate().unwrap();
    assert_eq!(get_test_by_id(&conn, String::from("999")), None);
    assert!(get_result_by_id(&conn, String::from("999")).is_none());
}

#[test]
fn unreachable_relations_give_an_error_or_nothing() {
    let conn = init_conn().unwrap();
    assert!(matches!(
        get_by_status(&conn, "FINISHED"),
        Err(StoreError::Database(_))
    ));
    assert!(get_to_do(&conn).is_empty());
    assert!(get_finished(&conn).is_empty());
    assert_eq!(get_test_by_id(&conn, String::from("1")), None);
    assert!(matches!(
        update_status(&conn, String::from("1"), "FINISHED"),
        Err(StoreError::Database(_))
    ));
    assert!(matches!(
        save_new_test(&conn, &sample_test()),
        Err(StoreError::Database(_))
    ));
}

#[test]
fn test_without_four_choices_is_refused_and_nothing_is_written() {
    let conn = init_conn().unwrap();
    create_schema(&conn).unwrap();
    let mut test = sample_test();
    test.questions[2].answers.pop();
    assert_eq!(save_new_test(&conn, &test), Err(StoreError::Malformed));
    assert!(get_to_do(&conn).is_empty());
    assert_eq!(
        StoreError::Malformed.message(),
        "a question without four choices"
    );
}

#[test]
fn failed_insert_rolls_the_whole_test_back() {
    let conn = init_conn().unwrap();
    create_schema(&conn).unwrap();
    conn.execute("DROP TABLE question", ()).unwrap();
    assert!(matches!(
        save_new_test(&conn, &sample_test()),
        Err(StoreError::Database(_))
    ));
    assert!(get_to_do(&conn).is_empty());
}

#[test]
fn sample_store_lists_by_status() {
    let conn = init_conn_and_populate().unwrap();
    let to_do = get_to_do(&conn);
    let finished = get_finished(&conn);
    assert_eq!(ids(&to_do), vec!["1", "2", "3"]);
    assert_eq!(ids(&finished), vec!["4", "5", "6", "7"]);
    assert_eq!(to_do[1].1, "[2025-02-28] Verbs and stuff");
    assert_eq!(finished[3].1, "[2025-01-12] Nouns or nuns");
    let first = get_test_by_id(&conn, String::from("1")).unwrap();
    assert_eq!(first.questions.len(), 2);
    assert_eq!(first.questions[1].answers[3], "any timme");
    assert_eq!(first.questions[1].correct, 2);
    let third = get_test_by_id(&conn, String::from("3")).unwrap();
    assert_eq!(third.questions.len(), 4);
}

#[test]
fn sample_store_gives_the_latest_result() {
    let conn = init_conn_and_populate().unwrap();
    let result = get_result_by_id(&conn, String::from("5")).unwrap();
    assert_eq!(result.id, "5");
    assert_eq!(result.title, "Adjectives");
    assert_eq!(result.answers.len(), 3);
    assert_eq!(result.answers[0].given, Some(2));
    assert_eq!(result.answers[0].correct, 3);
    assert!(!result.answers[0].is_correct);
    assert_eq!(result.answers[1].given, Some(1));
    assert!(result.answers[1].is_correct);
    assert_eq!(result.answers[1].time, 120);
    assert_eq!(result.total_time, 66 + 120 + 61);
}

fn answered(q: &QuestionModel, given: Option<usize>, time: u64) -> AnswerModel {
    AnswerModel::new(
        q.question.clone(),
        q.answers.clone(),
        q.correct,
        given,
        q.is_correct(given),
        time,
    )
}

#[test]
fn saved_result_finishes_the_test_and_is_the_latest() {
    let conn = init_conn_and_populate().unwrap();
    let test = get_test_by_id(&conn, String::from("2")).unwrap();
    let result = ResultModel::new(
        test.id.clone(),
        test.title.clone(),
        vec![
            answered(&test.questions[0], Some(2), 4),
            answered(&test.questions[1], Some(0), 0),
            answered(&test.questions[2], None, 9),
        ],
        20,
    );
    assert_eq!(save_result(&conn, result.clone()), Ok(()));
    assert_eq!(set_finished(&conn, String::from("2")), Ok(()));
    assert_eq!(set_finished(&conn, String::from("2")), Ok(()));

    assert_eq!(ids(&get_to_do(&conn)), vec!["1", "3"]);
    assert!(ids(&get_finished(&conn)).contains(&String::from("2")));

    let read = get_result_by_id(&conn, String::from("2")).unwrap();
    assert_eq!(read.id, "2");
    assert_eq!(read.title, test.title);
    assert_eq!(read.answers.len(), 3);
    for i in 0..3 {
        assert_eq!(read.answers[i].question, result.answers[i].question);
        assert_eq!(read.answers[i].answers, result.answers[i].answers);
        assert_eq!(read.answers[i].correct, result.answers[i].correct);
        assert_eq!(read.answers[i].given, result.answers[i].given);
        assert_eq!(read.answers[i].is_correct, result.answers[i].is_correct);
        assert_eq!(read.answers[i].time, result.answers[i].time);
    }
    assert_eq!(read.total_time, 13);
}

#[test]
fn results_are_appended_and_the_latest_wins() {
    let conn = init_conn_and_populate().unwrap();
    let test = get_test_by_id(&conn, String::from("4")).unwrap();
    let first = ResultModel::new(
        test.id.clone(),
        test.title.clone(),
        vec![answered(&test.questions[0], Some(3), 7)],
        7,
    );
    let second = ResultModel::new(
        test.id.clone(),
        test.title.clone(),
        vec![answered(&test.questions[0], Some(0), 2)],
        2,
    );
    assert_eq!(save_result_at(&conn, &first, 20_000), Ok(()));
    assert_eq!(save_result_at(&conn, &second, 30_000), Ok(()));
    let rows: i64 = conn
        .query_row("SELECT COUNT(*) FROM result WHERE examid = 4", (), |r| {
            r.get(0)
        })
        .unwrap();
    assert_eq!(rows, 3);
    let read = get_result_by_id(&conn, String::from("4")).unwrap();
    assert_eq!(read.answers.len(), 1);
    assert_eq!(read.answers[0].given, Some(0));
    assert!(read.answers[0].is_correct);
    assert_eq!(read.total_time, 2);
}

#[test]
fn result_that_cannot_be_stored_is_refused() {
    let conn = init_conn_and_populate().unwrap();
    let test = get_test_by_id(&conn, String::from("4")).unwrap();
    let result = ResultModel::new(
        test.id.clone(),
        test.title.clone(),
        vec![answered(&test.questions[0], Some(3), u64::MAX)],
        7,
    );
    assert_eq!(
        save_result_at(&conn, &result, 20_000),
        Err(StoreError::Malformed)
    );
    assert_eq!(
        save_result_at(&conn, &result.clone(), u64::MAX),
        Err(StoreError::Malformed)
    );
}

#[test]
fn rows_are_encoded_as_the_relations_expect() {
    let q = question("Q?", ["a", "b", "c", "d"], 2);
    assert_eq!(
        question_args(3, &q, 9),
        Some(vec![
            SqlArg::Int(3),
            SqlArg::Text(String::from("Q?")),
            SqlArg::Text(String::from("a")),
            SqlArg::Text(String::from("b")),
            SqlArg::Text(String::from("c")),
            SqlArg::Text(String::from("d")),
            SqlArg::Int(2),
            SqlArg::Int(9),
        ])
    );
    let short = QuestionModel::new(String::from("Q?"), vec![String::from("a")], 0);
    assert_eq!(question_args(1, &short, 9), None);
    let id = String::from("7");
    assert_eq!(
        answer_args(&id, 2, &answered(&q, None, 5), 100),
        Some(vec![
            SqlArg::Text(String::from("7")),
            SqlArg::Int(2),
            SqlArg::Int(42),
            SqlArg::Int(5),
            SqlArg::Int(100),
        ])
    );
    assert_eq!(
        answer_args(&id, 2, &answered(&q, Some(1), 5), 100).unwrap()[2],
        SqlArg::Int(1)
    );
}

fn text(s: &str) -> SqlCell {
    SqlCell::Text(String::from(s))
}

#[test]
fn rows_are_decoded_and_bad_rows_are_passed_over() {
    let exam = vec![SqlCell::Int(12), text("Name"), text("2025-01-01")];
    let good = vec![text("Q"), text("a"), text("b"), text("c"), text("d"), SqlCell::Int(1)];
    let null_choice = vec![text("Q"), text("a"), text("b"), SqlCell::Null, text("d"), SqlCell::Int(1)];
    let negative = vec![text("Q"), text("a"), text("b"), text("c"), text("d"), SqlCell::Int(-1)];
    let rows = vec![
        Ok(null_choice),
        Ok(good.clone()),
        Ok(negative),
        Ok(vec![text("short")]),
        Ok(good),
    ];
    let test = test_from_rows(&exam, &rows).unwrap();
    assert_eq!(test.id, "12");
    assert_eq!(test.title, "Name");
    assert_eq!(test.questions.len(), 2);
    assert_eq!(test.questions[0], question("Q", ["a", "b", "c", "d"], 1));

    assert_eq!(test_from_rows(&vec![text("12"), text("N"), text("D")], &rows), None);
    assert_eq!(test_from_rows(&vec![SqlCell::Int(-3), text("N"), text("D")], &rows), None);
    assert_eq!(test_from_rows(&vec![SqlCell::Real, text("N"), text("D")], &rows), None);

    let answer = vec![
        SqlCell::Int(42),
        SqlCell::Int(8),
        text("Q"),
        text("a"),
        text("b"),
        text("c"),
        text("d"),
        SqlCell::Int(1),
    ];
    let mut right = answer.clone();
    right[0] = SqlCell::Int(1);
    let result = result_from_rows(&exam, &vec![Ok(answer), Ok(vec![SqlCell::Blob]), Ok(right)]).unwrap();
    assert_eq!(result.answers.len(), 2);
    assert_eq!(result.answers[0].given, None);
    assert!(!result.answers[0].is_correct);
    assert_eq!(result.answers[1].given, Some(1));
    assert!(result.answers[1].is_correct);
    assert_eq!(result.total_time, 16);
}

#[test]
fn entities_turn_into_models() {
    let e = TestE { id: 40, name: String::from("N"), date: String::from("D") };
    assert_eq!(e.get_full_name(), "[D] N");
    assert_eq!(e.get_short(), (String::from("40"), String::from("[D] N")));
    assert_eq!(e.to_model(vec![]).id, "40");
    assert_eq!(e.to_result(vec![], 9).total_time, 9);
    let q = QuestionE {
        text: String::from("Q"),
        a1: String::from("1"),
        a2: String::from("2"),
        a3: String::from("3"),
        a4: String::from("4"),
        correct: 258,
    };
    assert_eq!(q.to_model(), question("Q", ["1", "2", "3", "4"], 2));
    let a = AnswerE {
        given: 42,
        time: 3,
        text: String::from("Q"),
        a1: String::from("1"),
        a2: String::from("2"),
        a3: String::from("3"),
        a4: String::from("4"),
        correct: 42,
    };
    let m = a.to_model();
    assert_eq!(m.given, None);
    assert!(m.is_correct);
    assert_eq!(m.time, 3);
}

#[test]
fn total_time_stops_at_the_largest_number() {
    let q = question("Q?", ["a", "b", "c", "d"], 2);
    let answers = vec![answered(&q, Some(1), u64::MAX - 1), answered(&q, Some(1), 5)];
    assert_eq!(sum_times(&answers), u64::MAX);
    assert_eq!(sum_times(&vec![]), 0);
}

#[test]
fn sample_answers_can_be_added_twice() {
    let conn = init_conn().unwrap();
    create_schema(&conn).unwrap();
    populate_tests(&conn);
    populate_questions(&conn);
    populate_answers(&conn);
    populate_answers(&conn);
    let result = get_result_by_id(&conn, String::from("4")).unwrap();
    assert_eq!(result.answers.len(), 2);
}
