use crate::app::ScreenType;
use crate::input::Key;
use crate::models::test::{AnswerModel, AnswerView, ResultModel, ResultView};
use crate::screens::runner::result_view;
use vstd::prelude::*;

verus! {

/// What an optional record is.
pub open spec fn answer_view(a: Option<AnswerModel>) -> Option<AnswerView> {
    match a {
        Some(a) => Some(a@),
        None => None,
    }
}

/// The record at position `idx` of an optional result, if there is one.
pub open spec fn answer_at(item: Option<ResultView>, idx: nat) -> Option<AnswerView> {
    match item {
        Some(r) => if idx < r.answers.len() {
            Some(r.answers[idx as int])
        } else {
            None
        },
        None => None,
    }
}

/// The number of records of an optional result.
pub open spec fn answer_count(item: Option<ResultView>) -> nat {
    match item {
        Some(r) => r.answers.len(),
        None => 0,
    }
}

/// What a [`Results`] screen asks to have painted.
#[derive(Clone, Copy, Debug, PartialEq, Eq, Structural)]
pub enum ResultsPage {
    /// Nothing but a cleared screen.
    Clear,
    /// The record under the cursor, with its choices.
    Question,
    /// The table of all records.
    Summary,
}

/// How a choice is shown on the page of a record.
#[derive(Clone, Copy, Debug, PartialEq, Eq, Structural)]
pub enum Mark {
    /// Neither picked nor right.
    Plain,
    /// The choice that was picked, and is wrong.
    Given,
    /// The right choice.
    Correct,
}

/// The mark of the choice at position `i` of the record `a`.
pub open spec fn mark_of(a: AnswerView, i: int) -> Mark {
    if i == a.correct {
        Mark::Correct
    } else if a.given == Some(i as usize) {
        Mark::Given
    } else {
        Mark::Plain
    }
}

/// The marks of the choices of a record, in order.
pub fn answer_marks(q: &AnswerModel) -> (marks: Vec<Mark>)
    ensures
        marks@.len() == q@.answers.len(),
        forall|i: int| 0 <= i < marks@.len() ==> marks@[i] == mark_of(q@, i),
{
    let mut marks: Vec<Mark> = Vec::new();
    let mut aidx: usize = 0;
    while aidx < q.answers.len()
        invariant
            aidx <= q.answers@.len(),
            marks@.len() == aidx,
            forall|i: int| 0 <= i < aidx ==> marks@[i] == mark_of(q@, i),
        decreases q.answers@.len() - aidx,
    {
        let mut mark = Mark::Plain;
        match q.given {
            Some(g) => {
                if aidx == g {
                    mark = Mark::Given;
                }
            },
            None => {},
        }
        if aidx == q.correct as usize {
            mark = Mark::Correct;
        }
        marks.push(mark);
        aidx = aidx + 1;
    }
    marks
}

/// The screen that pages through the records of a result: a cursor runs from
/// the first record to one past the last, where the summary stands.
pub struct Results {
    pub first_render: bool,
    pub locale: String,
    pub item: Option<ResultModel>,
    pub current_q_idx: usize,
    pub current_q: Option<AnswerModel>,
    pub count_q: usize,
}

impl Results {
    /// The screen is well formed when the count is that of the records and
    /// the cursor is not beyond it.
    pub open spec fn wf(&self) -> bool {
        &&& self.count_q == answer_count(result_view(self.item))
        &&& self.current_q_idx <= self.count_q
    }

    /// The screen for the result `item`, with the cursor on the first record
    /// and no record loaded yet.
    pub fn new(item: Option<ResultModel>, locale: String) -> (r: Self)
        ensures
            r.wf(),
            r.first_render,
            r.locale == locale,
            r.item == item,
            r.current_q_idx == 0,
            r.current_q is None,
    {
        let count_q: usize = match &item {
            Some(r) => r.answers.len(),
            None => 0,
        };
        Results { first_render: true, locale, item, current_q_idx: 0, current_q: None, count_q }
    }

    /// A copy of the record at position `idx`, if there is one.
    fn record(&self, idx: usize) -> (r: Option<AnswerModel>)
        ensures
            answer_view(r) == answer_at(result_view(self.item), idx as nat),
    {
        match &self.item {
            Some(res) => {
                if idx < res.answers.len() {
                    Some(res.answers[idx].copy())
                } else {
                    None
                }
            },
            None => None,
        }
    }

    /// Decides what to paint. The first frame is a cleared screen, and puts
    /// the cursor on the first record; after that the record under the cursor
    /// is painted, or the summary where the cursor is past the last record.
    pub fn draw(&mut self) -> (page: ResultsPage)
        requires
            old(self).wf(),
        ensures
            final(self).wf(),
            !final(self).first_render,
            final(self).locale == old(self).locale,
            final(self).item == old(self).item,
            old(self).first_render ==> page == ResultsPage::Clear && final(self).current_q_idx == 0
                && answer_view(final(self).current_q) == answer_at(result_view(old(self).item), 0),
            !old(self).first_render ==> final(self).current_q_idx == old(self).current_q_idx
                && final(self).current_q == old(self).current_q && page == (if old(
                self,
            ).current_q_idx == old(self).count_q {
                ResultsPage::Summary
            } else {
                ResultsPage::Question
            }),
    {
        if self.first_render {
            self.handle_start();
            self.first_render = false;
            return ResultsPage::Clear;
        }
        if self.current_q_idx == self.count_q {
            ResultsPage::Summary
        } else {
            ResultsPage::Question
        }
    }

    /// Handles a key press: back leads to the list of finished tests, right
    /// and left move the cursor.
    pub fn handle_key_code(&mut self, code: Key) -> (screen: ScreenType)
        requires
            old(self).wf(),
        ensures
            final(self).wf(),
            final(self).first_render == old(self).first_render,
            final(self).locale == old(self).locale,
            final(self).item == old(self).item,
            screen == (if code.is_letter('b', 'B') {
                ScreenType::Rerun
            } else {
                ScreenType::Results
            }),
            code == Key::Right ==> final(self).after_next(*old(self)),
            code == Key::Left ==> final(self).after_previous(*old(self)),
            code != Key::Right && code != Key::Left ==> final(self).current_q_idx == old(
                self,
            ).current_q_idx && final(self).current_q == old(self).current_q,
    {
        if code.letter('b', 'B') {
            return ScreenType::Rerun;
        }
        match code {
            Key::Right => self.handle_next(),
            Key::Left => self.handle_previous(),
            _ => {},
        }
        ScreenType::Results
    }

    /// Whether `self` is what a step to the right makes of `before`: the
    /// cursor one further, but not beyond the summary, and on it the record
    /// there; on the summary the record that was shown last stays.
    pub open spec fn after_next(&self, before: Results) -> bool {
        &&& self.current_q_idx == (if before.current_q_idx < before.count_q {
            before.current_q_idx + 1
        } else {
            before.current_q_idx as int
        })
        &&& if self.current_q_idx < before.count_q {
            answer_view(self.current_q) == answer_at(
                result_view(before.item),
                self.current_q_idx as nat,
            )
        } else {
            self.current_q == before.current_q
        }
    }

    /// Whether `self` is what a step to the left makes of `before`: the
    /// cursor one back, but not before the first record, and on it the record
    /// there.
    pub open spec fn after_previous(&self, before: Results) -> bool {
        &&& self.current_q_idx == (if before.current_q_idx == 0 {
            0
        } else {
            before.current_q_idx - 1
        })
        &&& answer_view(self.current_q) == answer_at(
            result_view(before.item),
            self.current_q_idx as nat,
        )
    }

    /// Puts the cursor on the first record and loads it.
    pub fn handle_start(&mut self)
        ensures
            final(self).wf(),
            final(self).first_render == old(self).first_render,
            final(self).locale == old(self).locale,
            final(self).item == old(self).item,
            final(self).current_q_idx == 0,
            answer_view(final(self).current_q) == answer_at(result_view(old(self).item), 0),
    {
        self.current_q_idx = 0;
        self.current_q = self.record(0);
        self.count_q = match &self.item {
            Some(r) => r.answers.len(),
            None => 0,
        };
    }

    /// Moves the cursor one to the right.
    pub fn handle_next(&mut self)
        requires
            old(self).wf(),
        ensures
            final(self).wf(),
            final(self).first_render == old(self).first_render,
            final(self).locale == old(self).locale,
            final(self).item == old(self).item,
            final(self).after_next(*old(self)),
    {
        if self.current_q_idx < self.count_q {
            self.current_q_idx = self.current_q_idx + 1;
        }
        if self.current_q_idx < self.count_q {
            self.current_q = self.record(self.current_q_idx);
        }
    }

    /// Moves the cursor one to the left.
    pub fn handle_previous(&mut self)
        requires
            old(self).wf(),
        ensures
            final(self).wf(),
            final(self).first_render == old(self).first_render,
            final(self).locale == old(self).locale,
            final(self).item == old(self).item,
            final(self).after_previous(*old(self)),
    {
        if self.current_q_idx != 0 {
            self.current_q_idx = self.current_q_idx - 1;
        }
        self.current_q = self.record(self.current_q_idx);
    }
}

} // verus!
