use ltr::app::{App, Effect, Frame, Language, ScreenType};
use ltr::input::Key;
use ltr::screens::help::{STATE_IMPORT_DONE, STATE_IMPORT_PROGRESS};
use ltr::screens::home::HomeLabels;
use ltr::screens::results::ResultsPage;
use ltr::screens::runner::RunnerPage;
use ltr::screens::test::TestsPage;
use ltr::screens::Paint;
use ltr::service::ioservice::{ImportLabels, SourceFile};
use ltr::service::testservice::{get_result_by_id, init_conn};

fn home_labels(tests: &str, redo: &str, help: &str, exit: &str) -> HomeLabels {
    HomeLabels {
        tests: String::from(tests),
        redo: String::from(redo),
        help: String::from(help),
        exit: String::from(exit),
    }
}

fn languages() -> Vec<Language> {
    vec![
        Language {
            code: String::from("en"),
            name: String::from("English"),
            home: home_labels("Tests", "Redo", "Help", "Exit"),
        },
        Language {
            code: String::from("pl"),
            name: String::from("Polski"),
            home: home_labels("Testy", "Powtorz", "Pomoc", "Wyjscie"),
        },
    ]
}

fn app() -> App {
    App::new(String::from("en"), languages()).unwrap()
}

fn ids(list: &[(String, String)]) -> Vec<String> {
    list.iter().map(|p| p.0.clone()).collect()
}

#[test]
fn app_opens_on_the_start_page_with_the_lists_of_the_store() {
    let mut app = app();
    assert!(!app.is_done());
    assert_eq!(app.current_screen, ScreenType::Home);
    assert_eq!(app.locale, "en");
    assert_eq!(app.home.menu.items[0], "[t] Tests");
    assert_eq!(ids(&app.tests.items), vec!["1", "2", "3"]);
    assert_eq!(ids(&app.rerun.items), vec!["4", "5", "6", "7"]);
    assert_eq!(app.draw(), Frame::Home(Paint::Clear));
    assert_eq!(app.draw(), Frame::Home(Paint::Page));
}

#[test]
fn finished_run_is_saved_and_moves_between_the_lists() {
    let mut app = app();
    assert_eq!(app.on_key_event(Key::Char('t')), Effect::Nothing);
    assert_eq!(app.current_screen, ScreenType::Tests);
    assert_eq!(app.draw(), Frame::Tests(TestsPage::Clear));
    app.on_key_event(Key::Down);
    app.on_key_event(Key::Enter);
    assert_eq!(app.current_screen, ScreenType::Runner);
    assert_eq!(app.runner.origin, ScreenType::Tests);
    assert_eq!(app.runner.item.as_ref().unwrap().id, "2");
    assert_eq!(app.draw(), Frame::Runner(RunnerPage::Clear));
    assert_eq!(app.draw(), Frame::Runner(RunnerPage::Start));
    app.on_key_event(Key::Char('s'));
    assert!(app.runner.is_running());
    app.on_key_event(Key::Down);
    app.on_key_event(Key::Down);
    app.on_key_event(Key::Enter);
    app.on_key_event(Key::Enter);
    app.on_key_event(Key::Down);
    app.on_key_event(Key::Enter);
    assert!(!app.runner.is_running());
    assert_eq!(app.current_screen, ScreenType::Runner);
    assert_eq!(app.draw(), Frame::Runner(RunnerPage::Summary));
    assert_eq!(ids(&app.tests.items), vec!["1", "2", "3"]);

    assert_eq!(app.on_key_event(Key::Char('d')), Effect::Nothing);
    assert_eq!(app.current_screen, ScreenType::Results);
    assert_eq!(ids(&app.tests.items), vec!["1", "3"]);
    assert!(ids(&app.rerun.items).contains(&String::from("2")));
    let shown = app.results.item.as_ref().unwrap();
    assert_eq!(shown.answers.len(), 3);
    assert_eq!(shown.answers[0].given, Some(2));
    assert!(shown.answers[0].is_correct);
    assert_eq!(shown.answers[1].given, Some(0));
    assert_eq!(shown.answers[2].given, Some(1));

    let stored = get_result_by_id(&app.conn, String::from("2")).unwrap();
    assert_eq!(stored.answers.len(), 3);
    for i in 0..3 {
        assert_eq!(stored.answers[i].given, shown.answers[i].given);
        assert_eq!(stored.answers[i].question, shown.answers[i].question);
        assert_eq!(stored.answers[i].is_correct, shown.answers[i].is_correct);
    }

    assert_eq!(app.draw(), Frame::Results(ResultsPage::Clear));
    assert_eq!(app.draw(), Frame::Results(ResultsPage::Question));
    app.on_key_event(Key::Char('b'));
    assert_eq!(app.current_screen, ScreenType::Rerun);
    assert!(app.home.first_render);
}

#[test]
fn quit_is_disabled_while_a_run_is_under_way() {
    let mut app = app();
    app.on_key_event(Key::Char('t'));
    app.on_key_event(Key::Enter);
    app.on_key_event(Key::Char('q'));
    assert!(app.is_done());

    let mut app = self::app();
    app.on_key_event(Key::Char('t'));
    app.on_key_event(Key::Enter);
    app.on_key_event(Key::Char('s'));
    assert_eq!(app.on_key_event(Key::Char('q')), Effect::Nothing);
    assert_eq!(app.on_key_event(Key::Char('Q')), Effect::Nothing);
    assert!(!app.is_done());
    app.on_key_event(Key::Char('b'));
    assert_eq!(app.current_screen, ScreenType::Runner);
    assert!(app.runner.is_running());
    app.on_key_event(Key::Enter);
    app.on_key_event(Key::Enter);
    assert!(!app.runner.is_running());
    app.on_key_event(Key::Char('Q'));
    assert!(app.is_done());
}

#[test]
fn force_quit_discards_the_run_without_saving() {
    let mut app = app();
    app.on_key_event(Key::Char('t'));
    app.on_key_event(Key::Enter);
    app.on_key_event(Key::Char('s'));
    app.on_key_event(Key::Enter);
    app.on_key_event(Key::Char('P'));
    assert_eq!(app.current_screen, ScreenType::Quit);
    assert!(!app.is_done());
    assert_eq!(app.on_key_event(Key::Enter), Effect::Nothing);
    assert_eq!(app.current_screen, ScreenType::Quit);
    assert_eq!(app.draw(), Frame::Nothing);
    assert!(app.is_done());
    assert_eq!(ids(&app.tests.items), vec!["1", "2", "3"]);
    assert_eq!(
        get_result_by_id(&app.conn, String::from("1")).unwrap().answers.len(),
        0
    );
}

#[test]
fn rerun_list_opens_runs_and_results() {
    let mut app = app();
    app.on_key_event(Key::Char('r'));
    assert_eq!(app.current_screen, ScreenType::Rerun);
    assert_eq!(app.draw(), Frame::Rerun(Paint::Clear));
    app.on_key_event(Key::Down);
    app.on_key_event(Key::Enter);
    assert_eq!(app.current_screen, ScreenType::Results);
    assert_eq!(app.results.item.as_ref().unwrap().id, "5");
    assert_eq!(app.results.item.as_ref().unwrap().total_time, 247);
    app.on_key_event(Key::Right);
    assert_eq!(app.results.current_q_idx, 1);
    app.on_key_event(Key::Char('B'));
    assert_eq!(app.current_screen, ScreenType::Rerun);
    app.on_key_event(Key::Char('r'));
    assert_eq!(app.current_screen, ScreenType::Runner);
    assert_eq!(app.runner.origin, ScreenType::Rerun);
    app.on_key_event(Key::Char('b'));
    assert_eq!(app.current_screen, ScreenType::Rerun);
    app.on_key_event(Key::Char('b'));
    assert_eq!(app.current_screen, ScreenType::Home);
}

#[test]
fn stale_identifier_declines_the_transition() {
    let mut app = app();
    app.conn
        .execute_batch("DELETE FROM result; DELETE FROM question; DELETE FROM exam;")
        .unwrap();
    app.on_key_event(Key::Char('t'));
    app.on_key_event(Key::Enter);
    assert_eq!(app.current_screen, ScreenType::Tests);
    app.on_key_event(Key::Char('b'));
    app.on_key_event(Key::Char('r'));
    app.on_key_event(Key::Enter);
    assert_eq!(app.current_screen, ScreenType::Rerun);
    app.on_key_event(Key::Char('r'));
    assert_eq!(app.current_screen, ScreenType::Rerun);
}

#[test]
fn locale_change_reaches_every_screen_and_is_to_be_saved() {
    let mut app = app();
    app.draw();
    app.draw();
    app.on_key_event(Key::Char('h'));
    assert_eq!(app.current_screen, ScreenType::Help);
    assert_eq!(app.draw(), Frame::Help(Paint::Clear));
    assert_eq!(app.on_key_event(Key::Char('c')), Effect::Nothing);
    app.on_key_event(Key::Down);
    assert_eq!(app.on_key_event(Key::Enter), Effect::Nothing);
    assert_eq!(app.locale, "en");
    assert_eq!(app.on_key_event(Key::Char('b')), Effect::SaveLocale);
    assert_eq!(app.current_screen, ScreenType::Home);
    assert!(app.home.first_render);
    for locale in [
        &app.locale,
        &app.home.locale,
        &app.tests.locale,
        &app.results.locale,
        &app.rerun.locale,
        &app.runner.locale,
        &app.help.locale,
    ] {
        assert_eq!(locale, "pl");
    }
    assert_eq!(app.home.menu.items[0], "[t] Testy");
}

#[test]
fn import_refreshes_the_list_of_tests() {
    let mut app = App::open(init_conn().unwrap(), String::from("en"), languages());
    assert!(app.tests.items.is_empty());
    ltr::service::dbservice::create_schema(&app.conn).unwrap();
    app.on_key_event(Key::Char('h'));
    app.on_key_event(Key::Char('i'));
    assert_eq!(app.on_key_event(Key::Char('s')), Effect::Import);
    assert_eq!(app.current_screen, ScreenType::Help);
    assert_eq!(app.help.state, STATE_IMPORT_PROGRESS);
    let labels = ImportLabels {
        parsing: String::from("Parsing"),
        valid: String::from("Valid"),
        invalid: String::from("Invalid"),
        save: String::from("Saved"),
        finished: String::from("Done"),
    };
    let files = vec![SourceFile {
        name: String::from("one.txt"),
        content: String::from("Title====Q1----+a\nb\nc\nd====Q2----a\nb\nc\n+d"),
    }];
    app.finish_import(&labels, &files);
    assert_eq!(app.help.state, STATE_IMPORT_DONE);
    assert_eq!(app.current_screen, ScreenType::Help);
    assert_eq!(app.help.import_results.len(), 8);
    assert_eq!(app.help.import_results[5], "Saved: \"Title\"");
    assert_eq!(ids(&app.tests.items), vec!["1"]);
    assert_eq!(app.tests.list.items.len(), 1);
}
