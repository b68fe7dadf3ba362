use ltr::service::ioservice::{
    import_log, import_test_files, label_line, parse_question, read_file_content,
    save_outcome_line, save_to_db, validate_structure, ImportLabels, SourceFile,
};
use ltr::service::sql::StoreError;
use ltr::service::testservice::{get_test_by_id, get_to_do, init_conn};
use ltr::service::dbservice::create_schema;

const GOOD: &str = "Colours====Which is warm?----\nblue\n+red\ngrey\ngreen\n====Which is cold?----+blue\nred\norange\nyellow";

fn labels() -> ImportLabels {
    ImportLabels {
        parsing: String::from("Parsing"),
        valid: String::from("Valid"),
        invalid: String::from("Invalid"),
        save: String::from("Saved"),
        finished: String::from("Import finished"),
    }
}

fn file(name: &str, content: &str) -> SourceFile {
    SourceFile { name: String::from(name), content: String::from(content) }
}

#[test]
fn demo_file_parses_and_is_rejected() {
    let test = read_file_content("Demo====Q1----A\n+B\nC\nD");
    assert_eq!(test.id, "0");
    assert_eq!(test.title, "Demo");
    assert_eq!(test.questions.len(), 1);
    assert_eq!(test.questions[0].question, "Q1");
    assert_eq!(test.questions[0].answers, vec!["A", "B", "C", "D"]);
    assert_eq!(test.questions[0].correct, 1);
    assert!(!validate_structure(&test));
}

#[test]
fn demo_file_is_logged_as_invalid_once() {
    let conn = init_conn().unwrap();
    create_schema(&conn).unwrap();
    let files = vec![file("demo.txt", "Demo====Q1----A\n+B\nC\nD")];
    let log = import_test_files(&labels(), &conn, &files);
    let invalid: Vec<&String> = log.iter().filter(|l| l.starts_with("Invalid")).collect();
    assert_eq!(invalid, vec!["Invalid: \"demo.txt\""]);
    assert_eq!(
        log,
        vec!["Parsing: \"demo.txt\"", " ", " ", "Invalid: \"demo.txt\"", " ", " ", "Import finished"]
    );
    assert!(get_to_do(&conn).is_empty());
}

#[test]
fn question_without_marker_gets_the_sentinel() {
    let q = parse_question("Q1----A\nB\nC\nD");
    assert_eq!(q.correct, 10);
    assert_eq!(q.answers, vec!["A", "B", "C", "D"]);
}

#[test]
fn good_file_is_valid() {
    let test = read_file_content(GOOD);
    assert_eq!(test.title, "Colours");
    assert_eq!(test.questions.len(), 2);
    assert_eq!(test.questions[0].question, "Which is warm?");
    assert_eq!(test.questions[0].answers, vec!["blue", "red", "grey", "green"]);
    assert_eq!(test.questions[0].correct, 1);
    assert_eq!(test.questions[1].correct, 0);
    assert!(validate_structure(&test));
}

#[test]
fn title_of_length_one_is_rejected() {
    let content = GOOD.replacen("Colours", "C", 1);
    let test = read_file_content(&content);
    assert_eq!(test.title, "C");
    assert!(!validate_structure(&test));
    let two = read_file_content(&GOOD.replacen("Colours", " Co \n", 1));
    assert_eq!(two.title, "Co");
    assert!(validate_structure(&two));
}

#[test]
fn lengths_are_counted_in_bytes() {
    let test = read_file_content(&GOOD.replacen("Colours", "\u{e9}", 1));
    assert_eq!(test.title.chars().count(), 1);
    assert!(validate_structure(&test));
}

#[test]
fn single_question_block_is_rejected() {
    let test = read_file_content("Colours====Which is warm?----blue\n+red\ngrey\ngreen");
    assert_eq!(test.questions.len(), 1);
    assert!(!validate_structure(&test));
    let none = read_file_content("Colours");
    assert_eq!(none.title, "Colours");
    assert!(none.questions.is_empty());
    assert!(!validate_structure(&none));
}

#[test]
fn question_with_three_choices_is_rejected() {
    let test = read_file_content(&GOOD.replacen("grey\n", "", 1));
    assert_eq!(test.questions[0].answers.len(), 3);
    assert!(!validate_structure(&test));
    let five = read_file_content(&GOOD.replacen("grey\n", "grey\nteal\n", 1));
    assert_eq!(five.questions[0].answers.len(), 5);
    assert!(!validate_structure(&five));
}

#[test]
fn question_without_marker_is_rejected() {
    let test = read_file_content(&GOOD.replacen("+red", "red", 1));
    assert_eq!(test.questions[0].correct, 10);
    assert_eq!(test.questions[0].answers.len(), 4);
    assert!(!validate_structure(&test));
}

#[test]
fn short_question_text_is_rejected() {
    let test = read_file_content(&GOOD.replacen("Which is warm?", "W", 1));
    assert_eq!(test.questions[0].question, "W");
    assert!(!validate_structure(&test));
}

#[test]
fn malformed_blocks_never_abort() {
    let q = parse_question("no delimiter at all");
    assert_eq!(q.question, "no delimiter at all");
    assert!(q.answers.is_empty());
    assert_eq!(q.correct, 10);
    let empty = read_file_content("");
    assert_eq!(empty.title, "");
    assert!(empty.questions.is_empty());
    let only = read_file_content("========");
    assert_eq!(only.questions.len(), 2);
    assert_eq!(only.questions[0].question, "");
    assert!(!validate_structure(&only));
    let odd = read_file_content("T=====Q----\u{2003}+\u{e9}t\u{e9} \r\n\n\n+\n \n");
    assert_eq!(odd.title, "T");
    assert_eq!(odd.questions[0].question, "=Q");
    assert_eq!(odd.questions[0].answers, vec!["+\u{e9}t\u{e9}", "", ""]);
    assert_eq!(odd.questions[0].correct, 1);
}

#[test]
fn last_marked_line_wins_and_later_parts_are_ignored() {
    let q = parse_question(" Q ----+a\n+b\nc\n----+d");
    assert_eq!(q.question, "Q");
    assert_eq!(q.answers, vec!["a", "b", "c"]);
    assert_eq!(q.correct, 1);
}

#[test]
fn marker_position_beyond_a_byte_is_the_sentinel() {
    let mut block = String::from("Q----");
    for _ in 0..256 {
        block.push_str("x\n");
    }
    block.push_str("+y\n");
    let q = parse_question(&block);
    assert_eq!(q.answers.len(), 257);
    assert_eq!(q.correct, 10);
    let mut shorter = String::from("Q----");
    for _ in 0..255 {
        shorter.push_str("x\n");
    }
    shorter.push_str("+y\n");
    assert_eq!(parse_question(&shorter).correct, 255);
}

#[test]
fn empty_inbox_gives_only_the_summary_line() {
    let conn = init_conn().unwrap();
    create_schema(&conn).unwrap();
    let log = import_test_files(&labels(), &conn, &vec![]);
    assert_eq!(log, vec!["Import finished"]);
}

#[test]
fn import_stores_the_valid_files_and_logs_every_file() {
    let conn = init_conn().unwrap();
    create_schema(&conn).unwrap();
    let files = vec![
        file("a.txt", GOOD),
        file("b \"x\".txt", "Broken"),
        file("c.txt", &GOOD.replacen("Colours", "Shades", 1)),
    ];
    let log = import_test_files(&labels(), &conn, &files);
    assert_eq!(
        log,
        vec![
            "Parsing: \"a.txt\"",
            "Parsing: \"b \\\"x\\\".txt\"",
            "Parsing: \"c.txt\"",
            " ",
            "Valid: \"a.txt\"",
            "Valid: \"c.txt\"",
            " ",
            "Invalid: \"b \\\"x\\\".txt\"",
            " ",
            "Saved: \"Colours\"",
            "Saved: \"Shades\"",
            " ",
            "Import finished",
        ]
    );
    let listed = get_to_do(&conn);
    assert_eq!(listed.len(), 2);
    let read = get_test_by_id(&conn, String::from("2")).unwrap();
    assert_eq!(read.title, "Shades");
    assert_eq!(read.questions, read_file_content(GOOD).questions);
}

#[test]
fn import_logs_a_store_that_fails() {
    let conn = init_conn().unwrap();
    let log = import_test_files(&labels(), &conn, &vec![file("a.txt", GOOD)]);
    assert_eq!(log.len(), 8);
    assert_eq!(log[2], "Valid: \"a.txt\"");
    assert!(log[5].starts_with("Error saving to db test: Colours with error: "));
    let line = save_to_db(&read_file_content(GOOD), "Saved", &conn);
    assert!(line.starts_with("Error saving to db test: Colours with error: "));
}

#[test]
fn log_lines_are_put_together_from_their_parts() {
    assert_eq!(label_line("Valid", "a\tb"), "Valid: \"a\\tb\"");
    assert_eq!(save_outcome_line("Saved", "T", &Ok(())), "Saved: \"T\"");
    assert_eq!(
        save_outcome_line("Saved", "T", &Err(StoreError::Database(String::from("locked")))),
        "Error saving to db test: T with error: locked"
    );
    assert_eq!(
        save_outcome_line("Saved", "T", &Err(StoreError::Malformed)),
        "Error saving to db test: T with error: a question without four choices"
    );
    let log = import_log(
        &labels(),
        &vec![String::from("a"), String::from("b")],
        &vec![false, true],
        vec![String::from("s1")],
    );
    assert_eq!(
        log,
        vec![
            "Parsing: \"a\"",
            "Parsing: \"b\"",
            " ",
            "Valid: \"b\"",
            " ",
            "Invalid: \"a\"",
            " ",
            "s1",
            " ",
            "Import finished"
        ]
    );
}
