use crate::models::test::{AnswerModel, AnswerView};
use crate::text::{decimal, u64_to_string};
use vstd::prelude::*;
use vstd::string::StringExecFns;

verus! {

/// A rectangle of terminal cells.
#[derive(Clone, Copy, Debug, PartialEq, Eq, Structural)]
pub struct Rect {
    pub x: u16,
    pub y: u16,
    pub width: u16,
    pub height: u16,
}

/// The width and height that `tui::layout::Rect::new` gives a rectangle whose
/// area would not fit in a `u16`.
pub uninterp spec fn clipped_size(width: u16, height: u16) -> (u16, u16);

/// The rectangle at `(x, y)` of the given size, clipped where its area would
/// not fit in a `u16`.
pub open spec fn rect_at(x: u16, y: u16, width: u16, height: u16) -> Rect {
    if width * height <= u16::MAX {
        Rect { x, y, width, height }
    } else {
        Rect { x, y, width: clipped_size(width, height).0, height: clipped_size(width, height).1 }
    }
}

/// Calls `tui::layout::Rect::new`. That function keeps the position, and keeps
/// the size too where the area fits in a `u16`; a larger size it shrinks, by a
/// computation on the width and height alone.
#[verifier::external_body]
fn tui_rect(x: u16, y: u16, width: u16, height: u16) -> (r: Rect)
    ensures
        r.x == x,
        r.y == y,
        width * height <= u16::MAX ==> r.width == width && r.height == height,
        width * height > u16::MAX ==> (r.width, r.height) == clipped_size(width, height),
{
    let r = tui::layout::Rect::new(x, y, width, height);
    Rect { x: r.x, y: r.y, width: r.width, height: r.height }
}

impl Rect {
    /// The rectangle at `(x, y)` of the given size.
    pub fn new(x: u16, y: u16, width: u16, height: u16) -> (r: Rect)
        ensures
            r == rect_at(x, y, width, height),
    {
        tui_rect(x, y, width, height)
    }
}

/// The column of `f` that [`get_adaptative_column`] picks: all of `f` up to a
/// width of 100, the middle 100 cells of a wider one.
pub open spec fn adaptative_column(f: Rect) -> Rect {
    if f.width > 100 {
        rect_at((f.width / 2 - 50) as u16, f.y, 100, f.height)
    } else {
        rect_at(0, f.y, f.width, f.height)
    }
}

/// Picks the column of `f` for a list: at most 100 cells wide, in the middle.
pub fn get_adaptative_column(f: Rect) -> (r: Rect)
    ensures
        r == adaptative_column(f),
{
    let mut x: u16 = 0;
    let mut x_w: u16 = f.width;
    if f.width > 100 {
        x = f.width / 2 - 50;
        x_w = 100;
    }
    Rect::new(x, f.y, x_w, f.height)
}

/// Whether the arithmetic of [`get_column_with_margin`] stays within `u16`.
pub open spec fn margin_fits(f: Rect, margin: u16, threshold: u16) -> bool {
    f.width > threshold ==> margin <= 100 && f.width * (100 - margin) <= u16::MAX && f.width
        * margin <= u16::MAX
}

/// The column of `f` that [`get_column_with_margin`] picks: all of `f` up to
/// the threshold; of a wider one the middle part that is left when `margin`
/// percent of the width are taken away, half of it on each side.
pub open spec fn column_with_margin(f: Rect, margin: u16, threshold: u16) -> Rect {
    if f.width > threshold {
        rect_at(
            (f.width * margin / 200) as u16,
            f.y,
            (f.width * (100 - margin) / 100) as u16,
            f.height,
        )
    } else {
        rect_at(0, f.y, f.width, f.height)
    }
}

/// Picks the column of `f` that leaves a margin of `margin` percent, where
/// `f` is wider than `threshold`.
pub fn get_column_with_margin(f: Rect, margin: u16, threshold: u16) -> (r: Rect)
    requires
        margin_fits(f, margin, threshold),
    ensures
        r == column_with_margin(f, margin, threshold),
{
    let mut x: u16 = 0;
    let mut x_w: u16 = f.width;
    if f.width > threshold {
        x_w = f.width * (100 - margin) / 100;
        x = f.width * margin / 200;
    }
    Rect::new(x, f.y, x_w, f.height)
}

/// Picks the column of `f` that leaves a margin of 10 percent, where `f` is
/// wider than 150 cells.
pub fn get_default_column(f: Rect) -> (r: Rect)
    requires
        margin_fits(f, 10, 150),
    ensures
        r == column_with_margin(f, 10, 150),
{
    get_column_with_margin(f, 10, 150)
}

/// The numeral of `n` in at least two digits.
pub open spec fn two_digits(n: nat) -> Seq<char> {
    if n < 10 {
        seq!['0'] + decimal(n)
    } else {
        decimal(n)
    }
}

/// A duration of `time` seconds as minutes and seconds, `mm:ss`.
pub open spec fn clock_text(time: nat) -> Seq<char> {
    two_digits(time / 60) + seq![':'] + two_digits(time % 60)
}

/// Writes a number in at least two digits.
pub fn format_number(time: u64) -> (s: String)
    ensures
        s@ == two_digits(time as nat),
{
    if time < 10 {
        proof {
            reveal_strlit("0");
        }
        String::from_str("0").concat(u64_to_string(time).as_str())
    } else {
        u64_to_string(time)
    }
}

/// Writes a duration of `time` seconds as minutes and seconds.
pub fn format_time(time: u64) -> (s: String)
    ensures
        s@ == clock_text(time as nat),
{
    proof {
        reveal_strlit("00:");
        reveal_strlit(":");
    }
    if time < 60 {
        let s = String::from_str("00:").concat(format_number(time).as_str());
        assert(s@ =~= clock_text(time as nat));
        return s;
    }
    let secs: u64 = time % 60;
    let mins: u64 = (time - secs) / 60;
    let secs_t = format_number(secs);
    let mins_t = format_number(mins);
    mins_t.concat(":").concat(secs_t.as_str())
}

/// How a part of a bar is painted.
#[derive(Clone, Copy, Debug, PartialEq, Eq, Structural)]
pub enum Tone {
    /// The dot at either end of a bar, which keeps the blanks beside it.
    Edge,
    /// Light on dark.
    Primary,
    /// Dark on light.
    Secondary,
    /// As the bar itself.
    Plain,
}

/// What the parts `v` of a bar are, in order.
pub open spec fn part_views(v: Seq<(String, Tone)>) -> Seq<(Seq<char>, Tone)> {
    Seq::new(v.len(), |i: int| (v[i].0@, v[i].1))
}

/// The parts of the elements `text` of a bar: for each element its key, its
/// label and a gap of two blanks. The key of the element at position `i` is
/// painted as `key_tone(i)` says, its label as `label_tone(i)` says.
pub open spec fn bar_body(
    text: Seq<(Seq<char>, Seq<char>)>,
    key_tone: spec_fn(int) -> Tone,
    label_tone: spec_fn(int) -> Tone,
) -> Seq<(Seq<char>, Tone)> {
    Seq::new(
        3 * text.len(),
        |k: int|
            if k % 3 == 0 {
                (text[k / 3].0, key_tone(k / 3))
            } else if k % 3 == 1 {
                (text[k / 3].1, label_tone(k / 3))
            } else {
                (seq![' ', ' '], Tone::Plain)
            },
    )
}

/// The parts `parts` closed as a bar: what comes last is taken away, which is
/// the gap behind the last element, and a dot is put in its place.
pub open spec fn closed_bar(parts: Seq<(Seq<char>, Tone)>) -> Seq<(Seq<char>, Tone)> {
    if parts.len() > 0 {
        parts.drop_last().push((seq!['.'], Tone::Edge))
    } else {
        seq![(seq!['.'], Tone::Edge)]
    }
}

/// The parts of a navigation bar: a dot, the elements with their keys light
/// on dark and their labels dark on light, and a dot.
pub open spec fn navbar_parts(text: Seq<(Seq<char>, Seq<char>)>) -> Seq<(Seq<char>, Tone)> {
    closed_bar(
        seq![(seq!['.'], Tone::Edge)] + bar_body(text, |i: int| Tone::Primary, |i: int| Tone::Secondary),
    )
}

/// The parts of the row that invites to start a run: the elements, the first
/// with its key dark on light and its label light on dark, the others the
/// other way round, and a dot.
pub open spec fn start_row_parts(text: Seq<(Seq<char>, Seq<char>)>) -> Seq<(Seq<char>, Tone)> {
    closed_bar(
        bar_body(
            text,
            |i: int|
                if i == 0 {
                    Tone::Secondary
                } else {
                    Tone::Primary
                },
            |i: int|
                if i == 0 {
                    Tone::Primary
                } else {
                    Tone::Secondary
                },
        ),
    )
}

/// Puts the key, the label and the gap of one element at the end of `parts`.
fn push_element(parts: &mut Vec<(String, Tone)>, t: &(String, String), key: Tone, label: Tone)
    ensures
        part_views(final(parts)@) == part_views(old(parts)@) + seq![
            (t.0@, key),
            (t.1@, label),
            (seq![' ', ' '], Tone::Plain),
        ],
{
    proof {
        reveal_strlit("  ");
    }
    let ghost before = part_views(parts@);
    parts.push((t.0.clone(), key));
    parts.push((t.1.clone(), label));
    let gap = String::from_str("  ");
    assert(gap@ =~= seq![' ', ' ']);
    parts.push((gap, Tone::Plain));
    assert(part_views(parts@) =~= before + seq![
        (t.0@, key),
        (t.1@, label),
        (seq![' ', ' '], Tone::Plain),
    ]);
}

/// Closes a bar: takes away what comes last and puts a dot in its place.
fn close_bar(parts: &mut Vec<(String, Tone)>)
    ensures
        part_views(final(parts)@) == closed_bar(part_views(old(parts)@)),
{
    proof {
        reveal_strlit(".");
    }
    let ghost before = part_views(parts@);
    let _ = parts.pop();
    let dot = String::from_str(".");
    assert(dot@ =~= seq!['.']);
    parts.push((dot, Tone::Edge));
    assert(part_views(parts@) =~= closed_bar(before));
}

/// The parts of a navigation bar with the elements `text`.
pub fn get_navbar(text: &Vec<(String, String)>) -> (nb: Vec<(String, Tone)>)
    ensures
        part_views(nb@) == navbar_parts(crate::ui::navbar::element_texts(text@)),
{
    proof {
        reveal_strlit(".");
    }
    let ghost all = crate::ui::navbar::element_texts(text@);
    let ghost key = |i: int| Tone::Primary;
    let ghost label = |i: int| Tone::Secondary;
    let mut nb: Vec<(String, Tone)> = Vec::new();
    let dot = String::from_str(".");
    assert(dot@ =~= seq!['.']);
    nb.push((dot, Tone::Edge));
    assert(part_views(nb@) =~= seq![(seq!['.'], Tone::Edge)] + bar_body(all.take(0), key, label));
    let mut i: usize = 0;
    while i < text.len()
        invariant
            i <= text@.len(),
            all == crate::ui::navbar::element_texts(text@),
            key == (|i: int| Tone::Primary),
            label == (|i: int| Tone::Secondary),
            part_views(nb@) == seq![(seq!['.'], Tone::Edge)] + bar_body(
                all.take(i as int),
                key,
                label,
            ),
        decreases text@.len() - i,
    {
        push_element(&mut nb, &text[i], Tone::Primary, Tone::Secondary);
        proof {
            assert(bar_body(all.take(i + 1), key, label) =~= bar_body(all.take(i as int), key, label)
                + seq![
                (text@[i as int].0@, Tone::Primary),
                (text@[i as int].1@, Tone::Secondary),
                (seq![' ', ' '], Tone::Plain),
            ]);
        }
        i = i + 1;
    }
    assert(all.take(text@.len() as int) =~= all);
    close_bar(&mut nb);
    nb
}

/// The parts of the row that invites to start a run, with the elements
/// `text`.
pub fn get_test_start_row(text: &Vec<(String, String)>) -> (start: Vec<(String, Tone)>)
    ensures
        part_views(start@) == start_row_parts(crate::ui::navbar::element_texts(text@)),
{
    let ghost all = crate::ui::navbar::element_texts(text@);
    let ghost key = |i: int|
        if i == 0 {
            Tone::Secondary
        } else {
            Tone::Primary
        };
    let ghost label = |i: int|
        if i == 0 {
            Tone::Primary
        } else {
            Tone::Secondary
        };
    let mut start: Vec<(String, Tone)> = Vec::new();
    let mut invert: bool = false;
    assert(part_views(start@) =~= bar_body(all.take(0), key, label));
    let mut i: usize = 0;
    while i < text.len()
        invariant
            i <= text@.len(),
            all == crate::ui::navbar::element_texts(text@),
            key == (|i: int|
                if i == 0 {
                    Tone::Secondary
                } else {
                    Tone::Primary
                }),
            label == (|i: int|
                if i == 0 {
                    Tone::Primary
                } else {
                    Tone::Secondary
                }),
            invert == (i != 0),
            part_views(start@) == bar_body(all.take(i as int), key, label),
        decreases text@.len() - i,
    {
        let key_tone = if invert {
            Tone::Primary
        } else {
            Tone::Secondary
        };
        let label_tone = if invert {
            Tone::Secondary
        } else {
            Tone::Primary
        };
        push_element(&mut start, &text[i], key_tone, label_tone);
        proof {
            assert(bar_body(all.take(i + 1), key, label) =~= bar_body(all.take(i as int), key, label)
                + seq![
                (text@[i as int].0@, key_tone),
                (text@[i as int].1@, label_tone),
                (seq![' ', ' '], Tone::Plain),
            ]);
        }
        invert = true;
        i = i + 1;
    }
    assert(all.take(text@.len() as int) =~= all);
    close_bar(&mut start);
    start
}

/// The line above a question: the word for a question, its number, the word
/// between, and the number of questions, with a blank between each two.
pub open spec fn progress_text(
    question: Seq<char>,
    qidx: nat,
    out_of: Seq<char>,
    total: nat,
) -> Seq<char> {
    question + seq![' '] + decimal(qidx) + seq![' '] + out_of + seq![' '] + decimal(total)
}

/// Writes the line above a question.
pub fn progress_header(question: &str, qidx: usize, out_of: &str, total: usize) -> (s: String)
    ensures
        s@ == progress_text(question@, qidx as nat, out_of@, total as nat),
{
    proof {
        reveal_strlit(" ");
    }
    let s = question.to_owned().concat(" ").concat(u64_to_string(qidx as u64).as_str()).concat(
        " ",
    ).concat(out_of).concat(" ").concat(u64_to_string(total as u64).as_str());
    assert(s@ =~= progress_text(question@, qidx as nat, out_of@, total as nat));
    s
}

/// A line that shows a timer: its label, a colon, and the time as minutes and
/// seconds.
pub open spec fn timer_text(label: Seq<char>, time: nat) -> Seq<char> {
    label + seq![':', ' '] + clock_text(time)
}

/// Writes a line that shows a timer.
pub fn timer_line(label: &str, time: u64) -> (s: String)
    ensures
        s@ == timer_text(label@, time as nat),
{
    proof {
        reveal_strlit(": ");
    }
    let s = label.to_owned().concat(": ").concat(format_time(time).as_str());
    assert(s@ =~= timer_text(label@, time as nat));
    s
}

/// What a row of the table of a result shows.
pub struct SummaryRowView {
    pub number: Seq<char>,
    pub question: Seq<char>,
    pub time: Seq<char>,
    pub correct: bool,
}

/// A row of the table of a result: the number of the question behind a hash
/// sign, its text, the time of the answer, and whether the answer was right.
#[derive(Clone, Debug, PartialEq, Eq)]
pub struct SummaryRow {
    pub number: String,
    pub question: String,
    pub time: String,
    pub correct: bool,
}

impl View for SummaryRow {
    type V = SummaryRowView;

    open spec fn view(&self) -> SummaryRowView {
        SummaryRowView {
            number: self.number@,
            question: self.question@,
            time: self.time@,
            correct: self.correct,
        }
    }
}

/// The row of the table for the record `a` at position `i`.
pub open spec fn summary_row(a: AnswerView, i: int) -> SummaryRowView {
    SummaryRowView {
        number: seq![' ', '#'] + decimal((i + 1) as nat),
        question: a.question,
        time: clock_text(a.time as nat),
        correct: a.is_correct,
    }
}

/// The key under which the word for a right or a wrong answer is found
/// among the texts of the user interface.
pub fn correct_key(correct: bool) -> (key: &'static str)
    ensures
        key@ == (if correct {
            "summary.yes"@
        } else {
            "summary.no"@
        }),
{
    if correct {
        "summary.yes"
    } else {
        "summary.no"
    }
}

/// The rows of the table of a result: one for each record, in order.
pub fn render_summary_table(answers: &Vec<AnswerModel>) -> (rows: Vec<SummaryRow>)
    ensures
        rows@.len() == answers@.len(),
        forall|i: int| 0 <= i < rows@.len() ==> (#[trigger] rows@[i])@ == summary_row(answers@[i]@, i),
{
    let mut rows: Vec<SummaryRow> = Vec::new();
    let mut idx: usize = 0;
    while idx < answers.len()
        invariant
            idx <= answers@.len(),
            rows@.len() == idx,
            forall|i: int|
                0 <= i < idx ==> (#[trigger] rows@[i])@ == summary_row(answers@[i]@, i),
        decreases answers@.len() - idx,
    {
        proof {
            reveal_strlit(" #");
        }
        let a = &answers[idx];
        let number = String::from_str(" #").concat(u64_to_string(idx as u64 + 1).as_str());
        assert(number@ =~= seq![' ', '#'] + decimal((idx + 1) as nat));
        rows.push(
            SummaryRow {
                number,
                question: a.question.clone(),
                time: format_time(a.time),
                correct: a.is_correct,
            },
        );
        idx = idx + 1;
    }
    rows
}

} // verus!
