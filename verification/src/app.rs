use crate::input::Key;
use crate::models::test::ResultModel;
use crate::screens::help::{Help, STATE_IMPORT_DONE, STATE_IMPORT_PROGRESS};
use crate::screens::home::{Home, HomeLabels};
use crate::screens::rerun::Rerun;
use crate::screens::results::{Results, ResultsPage};
use crate::screens::runner::{result_view, Runner, RunnerPage};
use crate::screens::test::{Tests, TestsPage};
use crate::screens::Paint;
use crate::service::ioservice::{import_test_files, ImportLabels, SourceFile};
use crate::service::sql::StoreError;
use crate::service::testservice;
use rusqlite::Connection;
use vstd::prelude::*;

verus! {

/// The screens between which the application moves. `Quit` ends it.
#[derive(Clone, Copy, Debug, PartialEq, Eq, Structural)]
pub enum ScreenType {
    Home,
    Tests,
    Results,
    Rerun,
    Help,
    Quit,
    Runner,
    Importer,
    Config,
}

/// A language of the user interface: its code, its name, and the labels of
/// the start page in it.
#[derive(Clone, Debug)]
pub struct Language {
    pub code: String,
    pub name: String,
    pub home: HomeLabels,
}

/// An event of the terminal, as far as the application tells events apart.
#[derive(Clone, Copy, Debug, PartialEq, Eq)]
pub enum TerminalEvent {
    Key(Key),
    Other,
}

/// What is left to do outside once a key press is handled.
#[derive(Clone, Copy, Debug, PartialEq, Eq, Structural)]
pub enum Effect {
    /// Nothing.
    Nothing,
    /// The language in use is to be written to the configuration.
    SaveLocale,
    /// The files of the inbox are to be read and handed to
    /// [`App::finish_import`].
    Import,
}

/// What the application asks to have painted.
#[derive(Clone, Copy, Debug, PartialEq, Eq, Structural)]
pub enum Frame {
    Home(Paint),
    Tests(TestsPage),
    Results(ResultsPage),
    Rerun(Paint),
    Help(Paint),
    Runner(RunnerPage),
    /// Nothing: the application is about to end.
    Nothing,
}

/// The codes and names of the languages `v`, in order.
pub open spec fn code_names(v: Seq<Language>) -> Seq<(Seq<char>, Seq<char>)> {
    Seq::new(v.len(), |i: int| (v[i].code@, v[i].name@))
}

/// The application: the screen that is shown, the screens themselves, the
/// language in use and the connection to the store.
pub struct App {
    pub is_finished: bool,
    pub locale: String,
    pub languages: Vec<Language>,
    pub current_screen: ScreenType,
    pub home: Home,
    pub tests: Tests,
    pub results: Results,
    pub rerun: Rerun,
    pub help: Help,
    pub runner: Runner,
    pub conn: Connection,
}

/// Copies the codes and names of the languages.
fn locale_pairs(languages: &Vec<Language>) -> (r: Vec<(String, String)>)
    ensures
        crate::service::dbservice::pair_texts(r@) == code_names(languages@),
{
    let mut r: Vec<(String, String)> = Vec::new();
    let mut i: usize = 0;
    while i < languages.len()
        invariant
            i <= languages@.len(),
            r@.len() == i,
            forall|k: int|
                0 <= k < i ==> r@[k].0@ == languages@[k].code@ && r@[k].1@ == languages@[k].name@,
        decreases languages@.len() - i,
    {
        r.push((languages[i].code.clone(), languages[i].name.clone()));
        i = i + 1;
    }
    assert(crate::service::dbservice::pair_texts(r@) =~= code_names(languages@));
    r
}

/// The position of the first language with the code `code`, if there is one.
fn find_language(languages: &Vec<Language>, code: &String) -> (r: Option<usize>)
    ensures
        r matches Some(i) ==> i < languages@.len() && languages@[i as int].code@ == code@
            && forall|k: int| 0 <= k < i ==> (#[trigger] languages@[k]).code@ != code@,
        r is None ==> forall|k: int|
            0 <= k < languages@.len() ==> (#[trigger] languages@[k]).code@ != code@,
{
    let mut i: usize = 0;
    while i < languages.len()
        invariant
            i <= languages@.len(),
            forall|k: int| 0 <= k < i ==> (#[trigger] languages@[k]).code@ != code@,
        decreases languages@.len() - i,
    {
        if languages[i].code == *code {
            return Some(i);
        }
        i = i + 1;
    }
    None
}

/// The labels of the start page without any text.
fn no_labels() -> (labels: HomeLabels)
    ensures
        labels.tests@ == Seq::<char>::empty(),
        labels.redo@ == Seq::<char>::empty(),
        labels.help@ == Seq::<char>::empty(),
        labels.exit@ == Seq::<char>::empty(),
{
    HomeLabels { tests: String::new(), redo: String::new(), help: String::new(), exit: String::new() }
}

impl App {
    /// The application is well formed when each of its screens is.
    pub open spec fn wf(&self) -> bool {
        &&& self.home.wf()
        &&& self.tests.wf()
        &&& self.results.wf()
        &&& self.rerun.wf()
        &&& self.help.wf()
        &&& self.runner.wf()
    }

    /// Whether `self` is the application as it opens in the language
    /// `default_locale` out of `languages`: on the start page, whose menu
    /// carries the labels of the first language with that code, with the
    /// lists of tests as the store gives them, no run and no result, and every
    /// screen yet to paint its first frame.
    pub open spec fn fresh(&self, default_locale: Seq<char>, languages: Vec<Language>) -> bool {
        &&& !self.is_finished
        &&& self.current_screen == ScreenType::Home
        &&& self.languages == languages
        &&& self.speaks(default_locale)
        &&& self.home.first_render
        &&& forall|i: int|
            0 <= i < languages@.len() && languages@[i].code@ == default_locale && (forall|k: int|
                0 <= k < i ==> (#[trigger] languages@[k]).code@ != default_locale)
                ==> self.home.shows(#[trigger] languages@[i].home)
        &&& (forall|k: int| 0 <= k < languages@.len() ==> (#[trigger] languages@[k]).code@
            != default_locale) ==> self.home.shows_texts(
            Seq::empty(),
            Seq::empty(),
            Seq::empty(),
            Seq::empty(),
        )
        &&& self.tests.first_render
        &&& self.tests.lists_store()
        &&& self.rerun.first_render
        &&& self.rerun.lists_store()
        &&& self.help.first_render
        &&& self.help.state == crate::screens::help::STATE_DEFAULT
        &&& self.help.import_results@.len() == 0
        &&& crate::service::dbservice::pair_texts(self.help.all_locales@) == code_names(languages@)
        &&& self.runner@ == crate::screens::runner::fresh_run(None, default_locale)
        &&& self.results.first_render
        &&& self.results.item is None
    }

    /// The application on a store in memory that holds the sample tests, in
    /// the language `default_locale` out of `languages`. Fails where the
    /// store cannot be opened.
    pub fn new(default_locale: String, languages: Vec<Language>) -> (r: Result<Self, StoreError>)
        ensures
            r matches Ok(app) ==> app.wf() && app.fresh(default_locale@, languages),
            r matches Err(e) ==> e is Database,
    {
        match testservice::init_conn_and_populate() {
            Ok(conn) => Ok(Self::open(conn, default_locale, languages)),
            Err(e) => Err(e),
        }
    }

    /// The application on the store behind `conn`, in the language
    /// `default_locale` out of `languages`.
    pub fn open(conn: Connection, default_locale: String, languages: Vec<Language>) -> (app: Self)
        ensures
            app.wf(),
            app.conn == conn,
            app.fresh(default_locale@, languages),
    {
        let tests_to_do = testservice::get_to_do(&conn);
        let tests_finished = testservice::get_finished(&conn);
        let home = match find_language(&languages, &default_locale) {
            Some(i) => Home::new(default_locale.clone(), &languages[i].home),
            None => Home::new(default_locale.clone(), &no_labels()),
        };
        let all_locales = locale_pairs(&languages);
        App {
            is_finished: false,
            locale: default_locale.clone(),
            current_screen: ScreenType::Home,
            home,
            tests: Tests::new(tests_to_do, default_locale.clone()),
            results: Results::new(None, default_locale.clone()),
            rerun: Rerun::new(tests_finished, default_locale.clone()),
            help: Help::new(default_locale.clone(), all_locales),
            runner: Runner::new(None, default_locale),
            languages,
            conn,
        }
    }

    /// What the application asks to have painted in the state it is in: the
    /// page of the screen that is shown, which on its first frame is a
    /// cleared screen.
    pub open spec fn frame(&self) -> Frame {
        match self.current_screen {
            ScreenType::Home => Frame::Home(
                if self.home.first_render {
                    Paint::Clear
                } else {
                    Paint::Page
                },
            ),
            ScreenType::Tests => Frame::Tests(
                if self.tests.first_render {
                    TestsPage::Clear
                } else if self.tests.items@.len() == 0 {
                    TestsPage::Empty
                } else {
                    TestsPage::List
                },
            ),
            ScreenType::Results => Frame::Results(
                if self.results.first_render {
                    ResultsPage::Clear
                } else if self.results.current_q_idx == self.results.count_q {
                    ResultsPage::Summary
                } else {
                    ResultsPage::Question
                },
            ),
            ScreenType::Rerun => Frame::Rerun(
                if self.rerun.first_render {
                    Paint::Clear
                } else {
                    Paint::Page
                },
            ),
            ScreenType::Runner => Frame::Runner(
                if self.runner.first_render {
                    RunnerPage::Clear
                } else if self.runner@.is_running() {
                    RunnerPage::Question
                } else if self.runner.show_summary {
                    RunnerPage::Summary
                } else {
                    RunnerPage::Start
                },
            ),
            ScreenType::Help | ScreenType::Importer | ScreenType::Config => Frame::Help(
                if self.help.first_render {
                    Paint::Clear
                } else {
                    Paint::Page
                },
            ),
            ScreenType::Quit => Frame::Nothing,
        }
    }

    /// Decides what to paint: the page of the screen that is shown. On the
    /// last screen nothing is painted and the application is marked as done.
    /// The screen that is painted has had its first frame from then on; no
    /// other screen changes.
    pub fn draw(&mut self) -> (frame: Frame)
        requires
            old(self).wf(),
        ensures
            final(self).wf(),
            frame == old(self).frame(),
            final(self).current_screen == old(self).current_screen,
            final(self).is_finished == (old(self).is_finished || old(self).current_screen
                == ScreenType::Quit),
            final(self).locale == old(self).locale,
            final(self).languages == old(self).languages,
            final(self).conn == old(self).conn,
            old(self).current_screen != ScreenType::Home ==> final(self).home == old(self).home,
            old(self).current_screen != ScreenType::Tests ==> final(self).tests == old(self).tests,
            old(self).current_screen != ScreenType::Results ==> final(self).results == old(
                self,
            ).results,
            old(self).current_screen != ScreenType::Rerun ==> final(self).rerun == old(self).rerun,
            old(self).current_screen != ScreenType::Runner ==> final(self).runner == old(
                self,
            ).runner,
            old(self).current_screen == ScreenType::Home ==> !final(self).home.first_render,
            old(self).current_screen == ScreenType::Tests ==> !final(self).tests.first_render,
            old(self).current_screen == ScreenType::Results ==> !final(self).results.first_render,
            old(self).current_screen == ScreenType::Rerun ==> !final(self).rerun.first_render,
            old(self).current_screen == ScreenType::Runner ==> !final(self).runner.first_render,
            old(self).frame() is Help ==> !final(self).help.first_render,
            old(self).frame() !is Help ==> final(self).help == old(self).help,
    {
        match self.current_screen {
            ScreenType::Home => Frame::Home(self.home.draw()),
            ScreenType::Tests => Frame::Tests(self.tests.draw()),
            ScreenType::Results => Frame::Results(self.results.draw()),
            ScreenType::Rerun => Frame::Rerun(self.rerun.draw()),
            ScreenType::Help => Frame::Help(self.help.draw()),
            ScreenType::Runner => Frame::Runner(self.runner.draw()),
            ScreenType::Importer => Frame::Help(self.help.draw()),
            ScreenType::Config => Frame::Help(self.help.draw()),
            ScreenType::Quit => {
                self.is_finished = true;
                Frame::Nothing
            },
        }
    }

    /// Whether the application is done and the terminal can be left.
    pub fn is_done(&self) -> (b: bool)
        ensures
            b == self.is_finished,
    {
        self.is_finished
    }

    /// Handles an event of the terminal: a key press goes to
    /// [`App::on_key_event`], and nothing else does anything.
    pub fn on_terminal_event(&mut self, event: TerminalEvent) -> (effect: Effect)
        requires
            old(self).wf(),
        ensures
            final(self).wf(),
            event is Other ==> effect == Effect::Nothing && *final(self) == *old(self),
            event matches TerminalEvent::Key(code) ==> final(self).after_key(
                *old(self),
                code,
                effect,
            ),
    {
        match event {
            TerminalEvent::Key(ev) => self.on_key_event(ev),
            TerminalEvent::Other => Effect::Nothing,
        }
    }

    /// Whether `self` is what the key `code` can make of `before`, with
    /// `effect` left to do. `q` marks the application as done, but not while
    /// a run is under way, and does nothing else; `b` makes the start page
    /// paint itself afresh; and every key but `q` goes to the screen that is
    /// shown.
    pub open spec fn after_key(&self, before: App, code: Key, effect: Effect) -> bool {
        &&& self.languages == before.languages
        &&& self.conn == before.conn
        &&& if code.is_letter('q', 'Q') {
            &&& effect == Effect::Nothing
            &&& self.is_finished == (before.is_finished || !before.runner@.is_running())
            &&& self.current_screen == before.current_screen
            &&& self.runner == before.runner
            &&& self.locale == before.locale
        } else {
            &&& self.is_finished == before.is_finished
            &&& code.is_letter('b', 'B') ==> self.home.first_render
            &&& self.follows(before, code, effect)
        }
    }

    /// Handles a key press. `q` ends the application, but not while a run is
    /// under way; `b` makes the start page paint itself afresh and then goes
    /// to the screen that is shown, as every other key does.
    pub fn on_key_event(&mut self, code: Key) -> (effect: Effect)
        requires
            old(self).wf(),
        ensures
            final(self).wf(),
            final(self).after_key(*old(self), code, effect),
    {
        if code.letter('q', 'Q') {
            if !self.runner.is_running() {
                self.is_finished = true;
            }
            return Effect::Nothing;
        }
        if code.letter('b', 'B') {
            self.home.first_render = true;
            return self.handle_key_code(Key::Char('b'));
        }
        self.handle_key_code(code)
    }

    /// Whether `self` is what the key `code`, which the screen that `before`
    /// showed gets, can make of `before`, with `effect` left to do. A capital
    /// `B` counts as `b`.
    pub open spec fn follows(&self, before: App, code: Key, effect: Effect) -> bool {
        let key = if code.is_letter('b', 'B') {
            Key::Char('b')
        } else {
            code
        };
        match before.current_screen {
            ScreenType::Home => self.follows_home(before, key, effect),
            ScreenType::Tests => self.follows_tests(before, key, effect),
            ScreenType::Results => self.follows_results(before, key, effect),
            ScreenType::Rerun => self.follows_rerun(before, key, effect),
            ScreenType::Runner => self.follows_runner(before, key, effect),
            ScreenType::Help => self.follows_help(before, key, effect),
            _ => self.follows_nothing(before, effect),
        }
    }

    /// The start page leads where the key says.
    pub open spec fn follows_home(&self, before: App, code: Key, effect: Effect) -> bool {
        &&& effect == Effect::Nothing
        &&& self.current_screen == (if code == Key::Enter {
            crate::screens::home::entry_screen(before.home.menu.selected)
        } else if code.is_letter('t', 'T') {
            ScreenType::Tests
        } else if code.is_letter('r', 'R') {
            ScreenType::Rerun
        } else if code.is_letter('h', 'H') {
            ScreenType::Help
        } else {
            ScreenType::Home
        })
        &&& self.locale == before.locale
        &&& self.runner == before.runner
    }

    /// The list of tests leads home, or opens a run of the test it names
    /// where the store has it, and stays as it is where the store has not.
    pub open spec fn follows_tests(&self, before: App, code: Key, effect: Effect) -> bool {
        &&& effect == Effect::Nothing
        &&& self.locale == before.locale
        &&& if code.is_letter('b', 'B') {
            self.current_screen == ScreenType::Home && self.runner == before.runner
        } else if code == Key::Enter && before.tests.chosen() is Some {
            self.opened_run(before, ScreenType::Tests)
        } else {
            self.current_screen == ScreenType::Tests && self.runner == before.runner
        }
    }

    /// The results lead back to the list of finished tests.
    pub open spec fn follows_results(&self, before: App, code: Key, effect: Effect) -> bool {
        &&& effect == Effect::Nothing
        &&& self.current_screen == (if code.is_letter('b', 'B') {
            ScreenType::Rerun
        } else {
            ScreenType::Results
        })
        &&& self.locale == before.locale
        &&& self.runner == before.runner
    }

    /// The list of finished tests leads home, opens a run of the test it
    /// names, or shows the latest result of it, where the store has it, and
    /// stays as it is where the store has not.
    pub open spec fn follows_rerun(&self, before: App, code: Key, effect: Effect) -> bool {
        &&& effect == Effect::Nothing
        &&& self.locale == before.locale
        &&& match before.rerun.screen_after(code) {
            ScreenType::Runner => self.opened_run(before, ScreenType::Rerun),
            ScreenType::Results => self.runner == before.runner && (self.shows_stored_result()
                || self.current_screen == ScreenType::Rerun && self.results == before.results),
            screen => self.current_screen == screen && self.runner == before.runner,
        }
    }

    /// Whether the results show, from their first page, a result that the
    /// store gave.
    pub open spec fn shows_stored_result(&self) -> bool {
        &&& self.current_screen == ScreenType::Results
        &&& self.results.item is Some
        &&& crate::service::dbservice::is_stored_result(self.results.item->0@)
        &&& self.results.first_render
    }

    /// A run goes on as its own rules say. Where it hands over its result,
    /// the results show that result from their first page.
    pub open spec fn follows_runner(&self, before: App, code: Key, effect: Effect) -> bool {
        &&& effect == Effect::Nothing
        &&& self.locale == before.locale
        &&& self.runner.epoch == before.runner.epoch
        &&& exists|now: u64| self.runner@ == #[trigger] before.runner@.step(code, now)
        &&& self.current_screen == before.runner@.screen_after(code)
        &&& before.runner@.handed_over(code) is Some ==> result_view(self.results.item)
            == before.runner@.handed_over(code) && self.results.first_render
        &&& before.runner@.handed_over(code) is Some ==> self.tests.lists_store()
            && self.rerun.lists_store()
        &&& before.runner@.handed_over(code) is None ==> self.results == before.results
            && self.tests == before.tests && self.rerun == before.rerun
    }

    /// The help page leads home with the language it was left with, which is
    /// then in use on every screen and is to be saved; and it asks for an
    /// import. The run that is kept changes in nothing but its language.
    pub open spec fn follows_help(&self, before: App, code: Key, effect: Effect) -> bool {
        &&& self.runner@ == (crate::screens::runner::RunnerView {
            locale: self.runner@.locale,
            ..before.runner@
        })
        &&& match before.help.screen_after(code) {
            ScreenType::Home => {
                &&& effect == Effect::SaveLocale
                &&& self.current_screen == ScreenType::Home
                &&& self.locale@ == before.help.locale@
                &&& self.speaks(self.locale@)
            },
            ScreenType::Importer => {
                &&& effect == Effect::Import
                &&& self.current_screen == ScreenType::Help
                &&& self.help.state == STATE_IMPORT_PROGRESS
                &&& self.locale == before.locale
            },
            screen => {
                &&& effect == Effect::Nothing
                &&& self.current_screen == screen
                &&& self.locale == before.locale
            },
        }
    }

    /// On the last screen no key does anything.
    pub open spec fn follows_nothing(&self, before: App, effect: Effect) -> bool {
        &&& effect == Effect::Nothing
        &&& self.current_screen == before.current_screen
        &&& self.locale == before.locale
        &&& self.runner == before.runner
    }

    /// Whether `self` is what opening a run from the list `origin` made of
    /// `before`: where the store has the test, the run of it as it is before
    /// it is started, in the language in use and with `origin` as the screen
    /// to go back to; where it has not, nothing has changed.
    pub open spec fn opened_run(&self, before: App, origin: ScreenType) -> bool {
        ||| {
            &&& self.current_screen == ScreenType::Runner
            &&& self.runner@.item is Some
            &&& crate::service::dbservice::is_stored_test(self.runner@.item->0)
            &&& self.runner@ == (crate::screens::runner::RunnerView {
                origin,
                ..crate::screens::runner::fresh_run(self.runner@.item, before.locale@)
            })
        }
        ||| {
            &&& self.current_screen == origin
            &&& self.runner == before.runner
        }
    }

    /// Whether every screen uses the language `locale`.
    pub open spec fn speaks(&self, locale: Seq<char>) -> bool {
        &&& self.locale@ == locale
        &&& self.home.locale@ == locale
        &&& self.tests.locale@ == locale
        &&& self.results.locale@ == locale
        &&& self.rerun.locale@ == locale
        &&& self.runner.locale@ == locale
        &&& self.help.locale@ == locale
    }

    fn handle_key_code(&mut self, code: Key) -> (effect: Effect)
        requires
            old(self).wf(),
            !code.is_letter('q', 'Q'),
        ensures
            final(self).wf(),
            final(self).languages == old(self).languages,
            final(self).conn == old(self).conn,
            final(self).is_finished == old(self).is_finished,
            final(self).home.first_render == old(self).home.first_render,
            final(self).follows(*old(self), code, effect),
    {
        match self.current_screen {
            ScreenType::Home => {
                self.current_screen = self.home.handle_key_code(code);
                Effect::Nothing
            },
            ScreenType::Tests => {
                let (screen, test_id) = self.tests.handle_key_code(code);
                match screen {
                    ScreenType::Runner => {
                        self.open_run(test_id, ScreenType::Tests);
                    },
                    _ => {
                        self.current_screen = screen;
                    },
                }
                Effect::Nothing
            },
            ScreenType::Results => {
                self.current_screen = self.results.handle_key_code(code);
                Effect::Nothing
            },
            ScreenType::Rerun => {
                let (screen, test_id) = self.rerun.handle_key_code(code);
                match screen {
                    ScreenType::Runner => {
                        self.open_run(test_id, ScreenType::Rerun);
                    },
                    ScreenType::Results => {
                        match testservice::get_result_by_id(&self.conn, test_id) {
                            Some(result) => {
                                self.results = Results::new(Some(result), self.locale.clone());
                                self.current_screen = ScreenType::Results;
                            },
                            None => {},
                        }
                    },
                    _ => {
                        self.current_screen = screen;
                    },
                }
                Effect::Nothing
            },
            ScreenType::Runner => {
                let (screen, result) = self.runner.handle_key_code(code);
                let ghost after = self.runner@;
                let ghost key = if code.is_letter('b', 'B') {
                    Key::Char('b')
                } else {
                    code
                };
                proof {
                    let now = choose|now: u64| after == old(self).runner@.step(code, now);
                    assert(after == old(self).runner@.step(key, now));
                }
                match result {
                    Some(r) => {
                        self.finish_run(&r);
                        self.results = Results::new(Some(r), self.locale.clone());
                    },
                    None => {},
                }
                self.current_screen = screen;
                Effect::Nothing
            },
            ScreenType::Help => {
                let (screen, locale) = self.help.handle_key_code(code);
                match screen {
                    ScreenType::Home => {
                        self.update_locale(locale);
                        self.current_screen = screen;
                        Effect::SaveLocale
                    },
                    ScreenType::Importer => {
                        self.current_screen = ScreenType::Help;
                        Effect::Import
                    },
                    _ => {
                        self.current_screen = screen;
                        Effect::Nothing
                    },
                }
            },
            _ => Effect::Nothing,
        }
    }

    /// Opens a run of the test `test_id` from the list `origin`, where the
    /// store has the test.
    fn open_run(&mut self, test_id: String, origin: ScreenType)
        requires
            old(self).wf(),
        ensures
            final(self).wf(),
            final(self).opened_run(*old(self), origin) || (final(self).current_screen == old(
                self,
            ).current_screen && final(self).runner == old(self).runner),
            final(self).is_finished == old(self).is_finished,
            final(self).locale == old(self).locale,
            final(self).languages == old(self).languages,
            final(self).conn == old(self).conn,
            final(self).home == old(self).home,
            final(self).tests == old(self).tests,
            final(self).results == old(self).results,
            final(self).rerun == old(self).rerun,
            final(self).help == old(self).help,
    {
        match testservice::get_test_by_id(&self.conn, test_id) {
            Some(test_model) => {
                let mut runner = Runner::new(Some(test_model), self.locale.clone());
                runner.origin = origin;
                self.runner = runner;
                self.current_screen = ScreenType::Runner;
            },
            None => {},
        }
    }

    /// Stores the result of a completed run, marks its test as finished, and
    /// brings the two lists up to date.
    fn finish_run(&mut self, r: &ResultModel)
        requires
            old(self).wf(),
        ensures
            final(self).wf(),
            final(self).is_finished == old(self).is_finished,
            final(self).locale == old(self).locale,
            final(self).languages == old(self).languages,
            final(self).conn == old(self).conn,
            final(self).current_screen == old(self).current_screen,
            final(self).home == old(self).home,
            final(self).results == old(self).results,
            final(self).help == old(self).help,
            final(self).runner == old(self).runner,
            final(self).tests.lists_store(),
            final(self).rerun.lists_store(),
    {
        let _ = testservice::save_result(&self.conn, r.copy());
        let _ = testservice::set_finished(&self.conn, r.id.clone());
        let to_do = testservice::get_to_do(&self.conn);
        let finished = testservice::get_finished(&self.conn);
        self.tests.update_items(to_do);
        self.rerun.update_items(finished);
    }

    /// Takes the result of an import over: what the files hold is stored as
    /// far as it is valid, the help page shows the log, and the list of
    /// tests to do is brought up to date.
    pub fn finish_import(&mut self, labels: &ImportLabels, files: &Vec<SourceFile>)
        requires
            old(self).wf(),
        ensures
            final(self).wf(),
            final(self).current_screen == ScreenType::Help,
            final(self).help.state == STATE_IMPORT_DONE,
            crate::service::ioservice::is_import_log(
                *labels,
                files@,
                crate::models::test::texts(final(self).help.import_results@),
            ),
            final(self).tests.lists_store(),
            final(self).tests.locale == old(self).tests.locale,
            final(self).help.locale == old(self).help.locale,
            final(self).is_finished == old(self).is_finished,
            final(self).locale == old(self).locale,
            final(self).languages == old(self).languages,
            final(self).conn == old(self).conn,
            final(self).home == old(self).home,
            final(self).results == old(self).results,
            final(self).rerun == old(self).rerun,
            final(self).runner == old(self).runner,
    {
        self.help.import_results = import_test_files(labels, &self.conn, files);
        let to_do = testservice::get_to_do(&self.conn);
        self.tests.update_items(to_do);
        self.help.state = STATE_IMPORT_DONE;
        self.current_screen = ScreenType::Help;
    }

    /// Puts the language `locale` in use on every screen.
    fn update_locale(&mut self, locale: String)
        requires
            old(self).wf(),
        ensures
            final(self).wf(),
            final(self).speaks(locale@),
            final(self).is_finished == old(self).is_finished,
            final(self).languages == old(self).languages,
            final(self).conn == old(self).conn,
            final(self).current_screen == old(self).current_screen,
            final(self).home.first_render == old(self).home.first_render,
            final(self).help.state == old(self).help.state,
            final(self).runner.epoch == old(self).runner.epoch,
            final(self).runner@ == (crate::screens::runner::RunnerView {
                locale: locale@,
                ..old(self).runner@
            }),
    {
        self.locale = locale;
        match find_language(&self.languages, &self.locale) {
            Some(i) => {
                self.home.update_locale(self.locale.clone(), &self.languages[i].home);
            },
            None => {
                self.home.locale = self.locale.clone();
            },
        }
        self.tests.locale = self.locale.clone();
        self.results.locale = self.locale.clone();
        self.rerun.locale = self.locale.clone();
        self.runner.locale = self.locale.clone();
        self.help.locale = self.locale.clone();
    }
}

} // verus!
