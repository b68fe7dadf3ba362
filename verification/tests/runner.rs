use ltr::app::ScreenType;
use ltr::clock::{elapsed_seconds, nanos_since, unix_seconds, NANOS_PER_SEC};
use ltr::input::Key;
use ltr::models::test::{QuestionModel, TestModel};
use ltr::screens::runner::{Runner, RunnerPage};

fn question(text: &str, answers: [&str; 4], correct: u8) -> QuestionModel {
    QuestionModel::new(
        String::from(text),
        answers.iter().map(|a| String::from(*a)).collect(),
        correct,
    )
}

fn quiz(n: usize) -> TestModel {
    let questions = (0..n)
        .map(|i| question(&format!("Question {}", i + 1), ["A", "B", "C", "D"], (i % 4) as u8))
        .collect();
    TestModel::new(String::from("7"), String::from("Quiz"), questions)
}

fn secs(s: u64) -> u64 {
    s * NANOS_PER_SEC
}

#[test]
fn completed_run_has_one_answer_per_question_in_order() {
    for n in 1..6 {
        let test = quiz(n);
        let mut runner = Runner::new(Some(test.clone()), String::from("en"));
        assert!(!runner.is_running());
        runner.handle_key_at(Key::Char('s'), secs(1));
        for i in 0..n {
            assert!(runner.is_running());
            assert_eq!(runner.current_q_number, i + 1);
            assert_eq!(runner.current_q_text, test.questions[i].question);
            assert_eq!(runner.result.answers.len(), i);
            let out = runner.handle_key_at(Key::Enter, secs(2 + i as u64));
            assert_eq!(out.0, ScreenType::Runner);
            assert!(out.1.is_none());
        }
        assert!(!runner.is_running());
        assert!(runner.show_summary);
        let (screen, result) = runner.handle_key_at(Key::Char('d'), secs(100));
        assert_eq!(screen, ScreenType::Results);
        let result = result.unwrap();
        assert_eq!(result.id, "7");
        assert_eq!(result.title, "Quiz");
        assert_eq!(result.answers.len(), n);
        for i in 0..n {
            assert_eq!(result.answers[i].question, test.questions[i].question);
            assert_eq!(result.answers[i].answers, test.questions[i].answers);
            assert_eq!(result.answers[i].correct, test.questions[i].correct);
        }
    }
}

#[test]
fn total_time_is_no_less_than_any_answer_and_need_not_be_the_sum() {
    let mut runner = Runner::new(Some(quiz(3)), String::from("en"));
    runner.handle_key_at(Key::Char('s'), 0);
    runner.handle_key_at(Key::Enter, secs(1) + 900_000_000);
    runner.handle_key_at(Key::Enter, secs(3) + 800_000_000);
    runner.handle_key_at(Key::Enter, secs(5) + 700_000_000);
    let result = runner.handle_key_at(Key::Char('D'), secs(9)).1.unwrap();
    let times: Vec<u64> = result.answers.iter().map(|a| a.time).collect();
    assert_eq!(times, vec![1, 1, 1]);
    assert_eq!(result.total_time, 5);
    assert!(result.total_time >= *times.iter().max().unwrap());
    assert!(result.total_time != times.iter().sum::<u64>());
}

#[test]
fn answer_under_a_second_reports_zero() {
    let mut runner = Runner::new(Some(quiz(1)), String::from("en"));
    runner.handle_key_at(Key::Char('s'), secs(10));
    runner.handle_key_at(Key::Enter, secs(10) + 999_999_999);
    assert_eq!(runner.result.answers[0].time, 0);
    assert_eq!(runner.result.total_time, 0);
    assert_eq!(elapsed_seconds(secs(10), secs(10) + 999_999_999), 0);
    assert_eq!(elapsed_seconds(secs(10), secs(11)), 1);
    assert_eq!(elapsed_seconds(secs(10), secs(9)), 0);
}

#[test]
fn clock_that_runs_backwards_counts_as_standing_still() {
    let mut runner = Runner::new(Some(quiz(2)), String::from("en"));
    runner.handle_key_at(Key::Char('s'), secs(50));
    runner.handle_key_at(Key::Enter, secs(40));
    assert_eq!(runner.result.answers[0].time, 0);
    assert_eq!(runner.timer_q, secs(50));
    runner.handle_key_at(Key::Enter, secs(53));
    assert_eq!(runner.result.answers[1].time, 3);
    assert_eq!(runner.result.total_time, 3);
}

#[test]
fn two_question_run_records_what_was_submitted() {
    let test = TestModel::new(
        String::from("1"),
        String::from("Two"),
        vec![
            question("Q1", ["A", "B", "C", "D"], 2),
            question("Q2", ["A", "B", "C", "D"], 3),
        ],
    );
    let mut runner = Runner::new(Some(test), String::from("en"));
    runner.handle_key_at(Key::Char('S'), 0);
    assert_eq!(runner.current_q_answers.selected, Some(0));
    runner.handle_key_at(Key::Down, 1);
    runner.handle_key_at(Key::Down, 2);
    runner.handle_key_at(Key::Down, 3);
    runner.handle_key_at(Key::Up, 4);
    runner.handle_key_at(Key::Enter, 5);
    assert_eq!(runner.current_q_answers.selected, Some(0));
    runner.handle_key_at(Key::Enter, 6);
    let result = runner.handle_key_at(Key::Char('d'), 7).1.unwrap();
    assert_eq!(result.answers[0].given, Some(2));
    assert!(result.answers[0].is_correct);
    assert_eq!(result.answers[1].given, Some(0));
    assert!(!result.answers[1].is_correct);
}

#[test]
fn selection_stops_at_both_ends() {
    let mut runner = Runner::new(Some(quiz(1)), String::from("en"));
    runner.handle_key_at(Key::Char('s'), 0);
    runner.handle_key_at(Key::Up, 0);
    assert_eq!(runner.current_q_answers.selected, Some(0));
    for _ in 0..6 {
        runner.handle_key_at(Key::Down, 0);
    }
    assert_eq!(runner.current_q_answers.selected, Some(3));
}

#[test]
fn back_is_ignored_while_running_and_leads_to_the_origin_otherwise() {
    let mut runner = Runner::new(Some(quiz(1)), String::from("en"));
    assert_eq!(runner.origin, ScreenType::Tests);
    runner.origin = ScreenType::Rerun;
    assert_eq!(runner.handle_key_at(Key::Char('b'), 0).0, ScreenType::Rerun);
    runner.handle_key_at(Key::Char('s'), 0);
    assert_eq!(runner.handle_key_at(Key::Char('b'), 0).0, ScreenType::Runner);
    assert_eq!(runner.handle_key_at(Key::Char('B'), 0).0, ScreenType::Runner);
    assert!(runner.is_running());
    runner.handle_key_at(Key::Enter, 0);
    assert_eq!(runner.handle_key_at(Key::Char('B'), 0).0, ScreenType::Rerun);
}

#[test]
fn force_quit_works_only_while_running() {
    let mut runner = Runner::new(Some(quiz(2)), String::from("en"));
    assert_eq!(runner.handle_key_at(Key::Char('P'), 0).0, ScreenType::Runner);
    runner.handle_key_at(Key::Char('s'), 0);
    let out = runner.handle_key_at(Key::Char('P'), 0);
    assert_eq!(out.0, ScreenType::Quit);
    assert!(out.1.is_none());
    assert_eq!(runner.handle_key_at(Key::Char('p'), 0).0, ScreenType::Runner);
}

#[test]
fn result_is_handed_over_exactly_once() {
    let mut runner = Runner::new(Some(quiz(1)), String::from("en"));
    assert!(runner.handle_key_at(Key::Char('d'), 0).1.is_none());
    runner.handle_key_at(Key::Char('s'), 0);
    assert!(runner.handle_key_at(Key::Char('d'), 0).1.is_none());
    runner.handle_key_at(Key::Enter, 0);
    assert!(runner.handle_key_at(Key::Char('s'), 0).1.is_none());
    assert!(!runner.is_running());
    assert!(runner.handle_key_at(Key::Enter, 0).1.is_none());
    assert_eq!(runner.result.answers.len(), 1);
    assert!(runner.handle_key_at(Key::Char('d'), 0).1.is_some());
    let again = runner.handle_key_at(Key::Char('d'), 0);
    assert_eq!(again.0, ScreenType::Runner);
    assert!(again.1.is_none());
}

#[test]
fn run_without_a_test_or_without_questions_does_not_start() {
    let mut runner = Runner::new(None, String::from("en"));
    assert_eq!(runner.handle_key_at(Key::Char('s'), 0).0, ScreenType::Runner);
    assert!(!runner.is_running());
    runner.handle_key_at(Key::Enter, 0);
    assert!(runner.result.answers.is_empty());
    let mut empty = Runner::new(Some(quiz(0)), String::from("en"));
    empty.handle_key_at(Key::Char('s'), 0);
    assert!(!empty.is_running());
    assert!(!empty.show_summary);
}

#[test]
fn draw_clears_first_and_then_follows_the_state() {
    let mut runner = Runner::new(Some(quiz(1)), String::from("en"));
    assert_eq!(runner.draw(), RunnerPage::Clear);
    assert_eq!(runner.draw(), RunnerPage::Start);
    runner.handle_key_at(Key::Char('s'), secs(1));
    assert_eq!(runner.draw(), RunnerPage::Question);
    assert_eq!(runner.timers_at(secs(4)), (3, 3));
    runner.handle_key_at(Key::Enter, secs(5));
    assert_eq!(runner.draw(), RunnerPage::Summary);
    runner.handle_key_at(Key::Char('d'), secs(6));
    assert_eq!(runner.draw(), RunnerPage::Start);
}

#[test]
fn run_on_the_real_clock_completes() {
    let mut runner = Runner::new(Some(quiz(2)), String::from("en"));
    let before = runner.now();
    runner.handle_key_code(Key::Char('s'));
    runner.handle_key_code(Key::Enter);
    runner.handle_key_code(Key::Enter);
    let result = runner.handle_key_code(Key::Char('d')).1.unwrap();
    assert_eq!(result.answers.len(), 2);
    assert!(result.total_time >= result.answers[0].time);
    assert!(result.total_time >= result.answers[1].time);
    assert!(runner.now() >= before);
    assert!(nanos_since(&runner.epoch) >= before);
    assert!(unix_seconds() > 1_600_000_000);
}
