use crate::app::ScreenType;
use crate::clock::{elapsed_seconds, instant_now, later, nanos_since, seconds_between};
use crate::input::Key;
use crate::models::test::{
    copy_texts, texts, AnswerModel, AnswerView, QuestionView, ResultModel, ResultView, TestModel,
    TestView,
};
use crate::ui::menu::{selection_after_next, selection_after_previous, Menu};
use std::time::Instant;
use vstd::prelude::*;

verus! {

/// Whether the record `a` is a snapshot of the question `q` together with a
/// choice and the verdict on that choice.
pub open spec fn records(a: AnswerView, q: QuestionView) -> bool {
    &&& a.question == q.question
    &&& a.answers == q.answers
    &&& a.correct == q.correct
    &&& a.is_correct == q.is_correct(a.given)
}

/// Whether the result `r` belongs to the test `t` and records its first `n`
/// questions, one record each, in the order of the questions.
pub open spec fn records_first(r: ResultView, t: TestView, n: nat) -> bool {
    &&& r.id == t.id
    &&& r.title == t.title
    &&& r.answers.len() == n
    &&& n <= t.questions.len()
    &&& forall|j: int| 0 <= j < n ==> records(#[trigger] r.answers[j], t.questions[j])
}

/// Whether the result `r` is that of a completed run of the test `t`: one
/// record for each question, in the order of the questions.
pub open spec fn completes(r: ResultView, t: TestView) -> bool {
    records_first(r, t, t.questions.len())
}

/// Whether no record of `r` took longer than `limit` seconds.
pub open spec fn times_within(r: ResultView, limit: u64) -> bool {
    forall|j: int| 0 <= j < r.answers.len() ==> (#[trigger] r.answers[j]).time <= limit
}

/// The highlight that a fresh list of `len` choices has: the first choice.
pub open spec fn first_selection(len: nat) -> Option<usize> {
    if len > 0 {
        Some(0usize)
    } else {
        None
    }
}

/// The state of a run. A run is idle before it is started, running while the
/// question with the number `number` (from 1) is open, and in its summary once
/// the last question is answered.
pub struct RunnerView {
    pub first_render: bool,
    pub locale: Seq<char>,
    pub origin: ScreenType,
    pub item: Option<TestView>,
    pub number: nat,
    pub question: Seq<char>,
    pub choices: Seq<Seq<char>>,
    pub selected: Option<usize>,
    pub result: ResultView,
    pub question_count: nat,
    pub show_summary: bool,
    pub timer_t: u64,
    pub timer_q: u64,
}

impl RunnerView {
    /// Whether a question is open.
    pub open spec fn is_running(self) -> bool {
        self.number != 0
    }

    /// Whether the run is not started, or its summary was left.
    pub open spec fn is_idle(self) -> bool {
        self.number == 0 && !self.show_summary
    }

    /// Whether the run is completed and its summary is on display.
    pub open spec fn is_summary(self) -> bool {
        self.number == 0 && self.show_summary
    }

    /// Whether there is a test to run, with a question to begin with.
    pub open spec fn can_start(self) -> bool {
        self.item is Some && self.item->0.questions.len() > 0
    }

    /// What holds while the question with the number `number` is open: the
    /// questions before it are recorded, it is the one on display, the clock
    /// of the question was started no earlier than that of the run, and no
    /// record took longer than the run has taken up to then.
    pub open spec fn running_wf(self) -> bool {
        &&& self.item is Some
        &&& records_first(self.result, self.item->0, (self.number - 1) as nat)
        &&& self.question == self.item->0.questions[self.number - 1].question
        &&& self.choices == self.item->0.questions[self.number - 1].answers
        &&& self.timer_t <= self.timer_q
        &&& times_within(self.result, seconds_between(self.timer_t, self.timer_q))
    }

    /// What holds in the summary: the result is that of a completed run, and
    /// no record took longer than the whole run.
    pub open spec fn summary_wf(self) -> bool {
        &&& self.item is Some
        &&& self.item->0.questions.len() > 0
        &&& completes(self.result, self.item->0)
        &&& times_within(self.result, self.result.total_time)
    }

    /// A state is well formed when the highlight is on one of the choices on
    /// display, the count of questions is that of the test, and what holds
    /// of a running run and of a summary holds where the run is in that
    /// state.
    pub open spec fn wf(self) -> bool {
        &&& match self.selected {
            Some(i) => i < self.choices.len(),
            None => self.choices.len() == 0,
        }
        &&& self.question_count == (match self.item {
            Some(t) => t.questions.len(),
            None => 0,
        })
        &&& self.number <= self.question_count
        &&& !(self.number > 0 && self.show_summary)
        &&& self.number > 0 ==> self.running_wf()
        &&& self.show_summary ==> self.summary_wf()
    }

    /// The state after the start of a run at the reading `now`: the first
    /// question is open, nothing is recorded, and both clocks start at `now`.
    pub open spec fn started(self, now: u64) -> RunnerView {
        let t = self.item->0;
        RunnerView {
            number: 1,
            question: t.questions[0].question,
            choices: t.questions[0].answers,
            selected: first_selection(t.questions[0].answers.len()),
            result: ResultView { id: t.id, title: t.title, answers: Seq::empty(), total_time: 0 },
            show_summary: false,
            timer_t: now,
            timer_q: now,
            ..self
        }
    }

    /// The record of the open question, answered at the reading `at` with the
    /// choice that is highlighted.
    pub open spec fn answer_at(self, at: u64) -> AnswerView {
        let q = self.item->0.questions[self.number - 1];
        AnswerView {
            question: self.question,
            answers: q.answers,
            correct: q.correct,
            given: self.selected,
            is_correct: q.is_correct(self.selected),
            time: seconds_between(self.timer_q, at),
        }
    }

    /// The state after the open question is answered at the reading `now`. A
    /// reading that lies before the start of the question counts as that
    /// start. The answer is recorded; after the last question the run is in
    /// its summary and its total time is set, else the next question is open
    /// and its clock starts.
    pub open spec fn answered(self, now: u64) -> RunnerView {
        let at = later(now, self.timer_q);
        let t = self.item->0;
        let answers = self.result.answers.push(self.answer_at(at));
        if self.number == self.question_count {
            RunnerView {
                number: 0,
                show_summary: true,
                result: ResultView {
                    answers,
                    total_time: seconds_between(self.timer_t, at),
                    ..self.result
                },
                ..self
            }
        } else {
            RunnerView {
                number: self.number + 1,
                question: t.questions[self.number as int].question,
                choices: t.questions[self.number as int].answers,
                selected: first_selection(t.questions[self.number as int].answers.len()),
                result: ResultView { answers, ..self.result },
                timer_q: at,
                ..self
            }
        }
    }

    /// The state after `key` is pressed at the reading `now`.
    pub open spec fn step(self, key: Key, now: u64) -> RunnerView {
        if key.is_letter('s', 'S') && self.is_idle() && self.can_start() {
            self.started(now)
        } else if key == Key::Up && self.is_running() {
            RunnerView {
                selected: selection_after_previous(self.selected, self.choices.len()),
                ..self
            }
        } else if key == Key::Down && self.is_running() {
            RunnerView {
                selected: selection_after_next(self.selected, self.choices.len()),
                ..self
            }
        } else if key.is_letter('d', 'D') && self.show_summary {
            RunnerView { show_summary: false, ..self }
        } else if key == Key::Enter && self.is_running() {
            self.answered(now)
        } else {
            self
        }
    }

    /// The screen to show after `key` is pressed: back leads to the screen
    /// that opened the run, but not while it is running; the capital `P`
    /// quits a running run; the details of a summary lead to the results.
    pub open spec fn screen_after(self, key: Key) -> ScreenType {
        if key.is_letter('b', 'B') {
            if self.is_running() {
                ScreenType::Runner
            } else {
                self.origin
            }
        } else if key == Key::Char('P') && self.is_running() {
            ScreenType::Quit
        } else if key.is_letter('d', 'D') && self.show_summary {
            ScreenType::Results
        } else {
            ScreenType::Runner
        }
    }

    /// The result that is handed over when `key` is pressed: that of the
    /// summary, when its details are asked for.
    pub open spec fn handed_over(self, key: Key) -> Option<ResultView> {
        if key.is_letter('d', 'D') && self.show_summary {
            Some(self.result)
        } else {
            None
        }
    }
}

/// The state after the open question and those that follow are answered at
/// the readings `times`, one after the other.
pub open spec fn answer_all(v: RunnerView, times: Seq<u64>) -> RunnerView
    decreases times.len(),
{
    if times.len() == 0 {
        v
    } else {
        answer_all(v.step(Key::Enter, times[0]), times.drop_first())
    }
}

/// No key press, at whatever reading of the clock, leads out of the well
/// formed states; and none changes the test, the screen the run was opened
/// from, or the number of questions.
pub proof fn lemma_step_preserves_wf(v: RunnerView, key: Key, now: u64)
    requires
        v.wf(),
    ensures
        v.step(key, now).wf(),
        v.step(key, now).item == v.item,
        v.step(key, now).origin == v.origin,
        v.step(key, now).question_count == v.question_count,
{
    let w = v.step(key, now);
    if key == Key::Enter && v.is_running() {
        let at = later(now, v.timer_q);
        let t = v.item->0;
        assert(records(v.answer_at(at), t.questions[v.number - 1]));
        assert forall|j: int| 0 <= j < w.result.answers.len() implies records(
            #[trigger] w.result.answers[j],
            t.questions[j],
        ) by {
            if j < v.result.answers.len() {
                assert(w.result.answers[j] == v.result.answers[j]);
            }
        }
        let limit = if v.number == v.question_count {
            seconds_between(v.timer_t, at)
        } else {
            seconds_between(w.timer_t, w.timer_q)
        };
        assert forall|j: int| 0 <= j < w.result.answers.len() implies (
        #[trigger] w.result.answers[j]).time <= limit by {
            if j < v.result.answers.len() {
                assert(w.result.answers[j] == v.result.answers[j]);
            }
        }
    }
}

/// A run that is started on a test of `n` questions, `n` at least one, and in
/// which each question is answered in turn, ends in the summary with a result
/// of exactly `n` records, the record at each position being that of the
/// question at that position.
pub proof fn lemma_completed_run_records_every_question(v: RunnerView, times: Seq<u64>)
    requires
        v.wf(),
        v.is_running(),
        times.len() == v.question_count - v.number + 1,
    ensures
        answer_all(v, times).wf(),
        answer_all(v, times).is_summary(),
        answer_all(v, times).item == v.item,
        completes(answer_all(v, times).result, v.item->0),
        answer_all(v, times).result.answers.len() == v.question_count,
    decreases times.len(),
{
    let w = v.step(Key::Enter, times[0]);
    lemma_step_preserves_wf(v, Key::Enter, times[0]);
    if v.number == v.question_count {
        assert(times.drop_first().len() == 0);
        assert(answer_all(w, times.drop_first()) == w);
    } else {
        lemma_completed_run_records_every_question(w, times.drop_first());
    }
}

/// In the summary of a run the total time is no less than the time of any
/// single answer; it need not be their sum.
pub proof fn lemma_total_time_bounds_each_answer(v: RunnerView, j: int)
    requires
        v.wf(),
        v.is_summary(),
        0 <= j < v.result.answers.len(),
    ensures
        v.result.total_time >= v.result.answers[j].time,
        v.result.total_time >= 0,
{
}

/// The state of a run of `item` before it is started: nothing is open,
/// nothing is recorded, the clocks stand at zero, the first frame is yet to
/// paint, and back leads to the list of tests.
pub open spec fn fresh_run(item: Option<TestView>, locale: Seq<char>) -> RunnerView {
    RunnerView {
        first_render: true,
        locale,
        origin: ScreenType::Tests,
        item,
        number: 0,
        question: Seq::empty(),
        choices: Seq::empty(),
        selected: None,
        result: ResultView {
            id: Seq::empty(),
            title: Seq::empty(),
            answers: Seq::empty(),
            total_time: 0,
        },
        question_count: match item {
            Some(t) => t.questions.len(),
            None => 0,
        },
        show_summary: false,
        timer_t: 0,
        timer_q: 0,
    }
}

/// What an optional test is.
pub open spec fn test_view(item: Option<TestModel>) -> Option<TestView> {
    match item {
        Some(t) => Some(t@),
        None => None,
    }
}

/// What an optional result is.
pub open spec fn result_view(item: Option<ResultModel>) -> Option<ResultView> {
    match item {
        Some(r) => Some(r@),
        None => None,
    }
}

/// The screen that takes the user through one run of a test.
pub struct Runner {
    pub first_render: bool,
    pub locale: String,
    pub origin: ScreenType,
    pub item: Option<TestModel>,
    pub current_q_number: usize,
    pub current_q_text: String,
    pub current_q_answers: Menu,
    pub result: ResultModel,
    pub question_count: usize,
    pub show_summary: bool,
    pub epoch: Instant,
    pub timer_t: u64,
    pub timer_q: u64,
}

impl View for Runner {
    type V = RunnerView;

    open spec fn view(&self) -> RunnerView {
        RunnerView {
            first_render: self.first_render,
            locale: self.locale@,
            origin: self.origin,
            item: test_view(self.item),
            number: self.current_q_number as nat,
            question: self.current_q_text@,
            choices: texts(self.current_q_answers.items@),
            selected: self.current_q_answers.selected,
            result: self.result@,
            question_count: self.question_count as nat,
            show_summary: self.show_summary,
            timer_t: self.timer_t,
            timer_q: self.timer_q,
        }
    }
}

/// What a [`Runner`] asks to have painted.
#[derive(Clone, Copy, Debug, PartialEq, Eq, Structural)]
pub enum RunnerPage {
    /// Nothing but a cleared screen.
    Clear,
    /// The open question with its choices.
    Question,
    /// The table of the answers of a completed run.
    Summary,
    /// The title of the test and the invitation to start.
    Start,
}

impl Runner {
    /// The screen is well formed when its state is.
    pub open spec fn wf(&self) -> bool {
        self@.wf()
    }

    /// A run of `item` that is not started yet, opened from the list of tests.
    pub fn new(item: Option<TestModel>, locale: String) -> (r: Self)
        ensures
            r.wf(),
            r@ == fresh_run(test_view(item), locale@),
    {
        let question_count: usize = match &item {
            Some(t) => t.questions.len(),
            None => 0,
        };
        let result = ResultModel::new(String::new(), String::new(), Vec::new(), 0);
        assert(result@.answers =~= Seq::<AnswerView>::empty());
        let menu = Menu::new(Vec::new());
        assert(texts(menu.items@) =~= Seq::<Seq<char>>::empty());
        Runner {
            first_render: true,
            locale,
            origin: ScreenType::Tests,
            item,
            current_q_number: 0,
            current_q_text: String::new(),
            current_q_answers: menu,
            result,
            question_count,
            show_summary: false,
            epoch: instant_now(),
            timer_t: 0,
            timer_q: 0,
        }
    }

    /// Whether a question is open.
    pub fn is_running(&self) -> (b: bool)
        ensures
            b == self@.is_running(),
    {
        self.current_q_number != 0
    }

    /// Decides what to paint: the first time nothing but a cleared screen,
    /// after that the page of the state the run is in.
    pub fn draw(&mut self) -> (page: RunnerPage)
        ensures
            final(self)@ == (RunnerView { first_render: false, ..old(self)@ }),
            final(self).epoch == old(self).epoch,
            page == (if old(self).first_render {
                RunnerPage::Clear
            } else if old(self)@.is_running() {
                RunnerPage::Question
            } else if old(self).show_summary {
                RunnerPage::Summary
            } else {
                RunnerPage::Start
            }),
    {
        if self.first_render {
            self.first_render = false;
            return RunnerPage::Clear;
        }
        if self.is_running() {
            RunnerPage::Question
        } else if self.show_summary {
            RunnerPage::Summary
        } else {
            RunnerPage::Start
        }
    }

    /// The whole seconds that the open question and the whole run have taken
    /// at the reading `now`.
    pub fn timers_at(&self, now: u64) -> (r: (u64, u64))
        ensures
            r.0 == seconds_between(self.timer_q, now),
            r.1 == seconds_between(self.timer_t, now),
    {
        (elapsed_seconds(self.timer_q, now), elapsed_seconds(self.timer_t, now))
    }

    /// Reads the clock of the run: the nanoseconds since the screen was made.
    pub fn now(&self) -> u64 {
        nanos_since(&self.epoch)
    }

    /// Handles a key press at the time the clock shows.
    pub fn handle_key_code(&mut self, code: Key) -> (r: (ScreenType, Option<ResultModel>))
        requires
            old(self).wf(),
        ensures
            final(self).wf(),
            final(self).epoch == old(self).epoch,
            exists|now: u64| final(self)@ == old(self)@.step(code, now),
            r.0 == old(self)@.screen_after(code),
            result_view(r.1) == old(self)@.handed_over(code),
    {
        let now = self.now();
        self.handle_key_at(code, now)
    }

    /// Handles a key press at the reading `now` of the clock, in nanoseconds.
    pub fn handle_key_at(&mut self, code: Key, now: u64) -> (r: (
        ScreenType,
        Option<ResultModel>,
    ))
        requires
            old(self).wf(),
        ensures
            final(self).wf(),
            final(self).epoch == old(self).epoch,
            final(self)@ == old(self)@.step(code, now),
            r.0 == old(self)@.screen_after(code),
            result_view(r.1) == old(self)@.handed_over(code),
    {
        if code.letter('b', 'B') {
            if self.is_running() {
                return (ScreenType::Runner, None);
            }
            return (self.origin, None);
        }
        match code {
            Key::Char(c) => {
                if c == 'P' {
                    if self.is_running() {
                        return (ScreenType::Quit, None);
                    }
                } else if c == 's' || c == 'S' {
                    if !self.is_running() && !self.show_summary {
                        return self.start_test(now);
                    }
                } else if c == 'd' || c == 'D' {
                    if self.show_summary {
                        self.show_summary = false;
                        return (ScreenType::Results, Some(self.result.copy()));
                    }
                }
            },
            Key::Up => {
                if self.is_running() {
                    self.current_q_answers.previous();
                }
            },
            Key::Down => {
                if self.is_running() {
                    self.current_q_answers.next();
                }
            },
            Key::Enter => {
                return self.handle_enter(now);
            },
            _ => {},
        }
        (ScreenType::Runner, None)
    }

    /// Starts the run at the reading `now`, where there is a test with a
    /// question to begin with.
    fn start_test(&mut self, now: u64) -> (r: (ScreenType, Option<ResultModel>))
        requires
            old(self).wf(),
            old(self)@.is_idle(),
        ensures
            final(self).wf(),
            final(self).epoch == old(self).epoch,
            final(self)@ == (if old(self)@.can_start() {
                old(self)@.started(now)
            } else {
                old(self)@
            }),
            r.0 == ScreenType::Runner,
            r.1 is None,
    {
        match &self.item {
            Some(test_m) => {
                if test_m.questions.len() > 0 {
                    let result = ResultModel::new(
                        test_m.id.clone(),
                        test_m.title.clone(),
                        Vec::new(),
                        0,
                    );
                    let text = test_m.questions[0].question.clone();
                    let menu = Menu::new(copy_texts(&test_m.questions[0].answers));
                    proof {
                        assert(result@.answers =~= Seq::<AnswerView>::empty());
                        assert(test_m@.questions[0] == test_m.questions@[0]@);
                    }
                    self.timer_t = now;
                    self.timer_q = now;
                    self.current_q_number = 1;
                    self.show_summary = false;
                    self.result = result;
                    self.current_q_text = text;
                    self.current_q_answers = menu;
                }
            },
            None => {},
        }
        (ScreenType::Runner, None)
    }

    /// Records the answer to the open question at the reading `now`.
    fn handle_enter(&mut self, now: u64) -> (r: (ScreenType, Option<ResultModel>))
        requires
            old(self).wf(),
        ensures
            final(self).wf(),
            final(self).epoch == old(self).epoch,
            final(self)@ == (if old(self)@.is_running() {
                old(self)@.answered(now)
            } else {
                old(self)@
            }),
            r.0 == ScreenType::Runner,
            r.1 is None,
    {
        if self.is_running() {
            let at: u64 = if now >= self.timer_q {
                now
            } else {
                self.timer_q
            };
            let ghost old_view = self@;
            let ghost before = self.result@.answers;
            match &self.item {
                Some(test_m) => {
                    let q = &test_m.questions[self.current_q_number - 1];
                    proof {
                        assert(test_m@.questions[self.current_q_number - 1] == q@);
                    }
                    let given = self.current_q_answers.selected;
                    let answer = AnswerModel::new(
                        self.current_q_text.clone(),
                        copy_texts(&q.answers),
                        q.correct,
                        given,
                        q.is_correct(given),
                        elapsed_seconds(self.timer_q, at),
                    );
                    assert(answer@ == old_view.answer_at(at));
                    assert(records(answer@, q@));
                    self.result.answers.push(answer);
                    assert(self.result@.answers =~= before.push(old_view.answer_at(at)));
                    if self.current_q_number == self.question_count {
                        self.current_q_number = 0;
                        self.show_summary = true;
                        self.result.total_time = elapsed_seconds(self.timer_t, at);
                    } else {
                        let next = &test_m.questions[self.current_q_number];
                        proof {
                            assert(test_m@.questions[self.current_q_number as int] == next@);
                        }
                        self.current_q_text = next.question.clone();
                        self.current_q_answers = Menu::new(copy_texts(&next.answers));
                        self.current_q_number = self.current_q_number + 1;
                        self.timer_q = at;
                    }
                },
                None => {},
            }
        }
        (ScreenType::Runner, None)
    }
}

} // verus!
