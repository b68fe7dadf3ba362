use crate::models::test::{question_views, texts, QuestionModel, QuestionView, TestModel, TestView};
use crate::service::dbservice;
use crate::service::sql::StoreError;
use crate::text::{
    debug_format, quoted, span_text, spans_of, split, split_span, to_chars, trim_span, trimmed,
    Span,
};
use rusqlite::Connection;
use vstd::prelude::*;
use vstd::string::StringExecFns;
use vstd::utf8::encode_utf8;

verus! {

/// The token that stands between the title and each question of a test file.
pub open spec fn question_delimiter() -> Seq<char> {
    seq!['=', '=', '=', '=']
}

/// The token that stands between the text of a question and its choices.
pub open spec fn answer_delimiter() -> Seq<char> {
    seq!['-', '-', '-', '-']
}

/// The character that, in front of a choice, marks it as the right one.
pub const MARKER: char = '+';

/// The position recorded for the right choice where none is marked.
pub const NO_MARKER: u8 = 10;

/// The number of choices that a question must offer.
pub const CHOICES: usize = 4;

/// The length of a text in bytes of UTF-8.
pub open spec fn text_len(s: Seq<char>) -> nat {
    encode_utf8(s).len()
}

/// Whether a line of choices carries the marker.
pub open spec fn is_marked(line: Seq<char>) -> bool {
    line.len() > 0 && line[0] == MARKER
}

/// The text of the choice that a line holds: the line without its marker and
/// without the white space around it.
pub open spec fn choice_text(line: Seq<char>) -> Seq<char> {
    if is_marked(line) {
        trimmed(line.drop_first())
    } else {
        trimmed(line)
    }
}

/// The lines among `lines` that are not empty, in order.
pub open spec fn nonempty_lines(lines: Seq<Seq<char>>) -> Seq<Seq<char>>
    decreases lines.len(),
{
    if lines.len() == 0 {
        lines
    } else if lines.last().len() > 0 {
        nonempty_lines(lines.drop_last()).push(lines.last())
    } else {
        nonempty_lines(lines.drop_last())
    }
}

/// The position of the last line that carries the marker; `NO_MARKER` where
/// no line carries it or the position does not fit in a `u8`.
pub open spec fn marked_index(lines: Seq<Seq<char>>) -> u8
    decreases lines.len(),
{
    if lines.len() == 0 {
        NO_MARKER
    } else if is_marked(lines.last()) {
        if lines.len() - 1 <= u8::MAX {
            (lines.len() - 1) as u8
        } else {
            NO_MARKER
        }
    } else {
        marked_index(lines.drop_last())
    }
}

/// The choices that the lines hold, in order.
pub open spec fn choices(lines: Seq<Seq<char>>) -> Seq<Seq<char>> {
    Seq::new(lines.len(), |i: int| choice_text(lines[i]))
}

/// The lines of choices of a question block: the non-empty lines of what
/// stands between the first and the second answer delimiter; none where the
/// block holds no answer delimiter.
pub open spec fn choice_lines(block: Seq<char>) -> Seq<Seq<char>> {
    let parts = split(block, answer_delimiter());
    if parts.len() > 1 {
        nonempty_lines(split(parts[1], seq!['\n']))
    } else {
        Seq::empty()
    }
}

/// The question that a question block of a test file holds.
pub open spec fn parsed_question(block: Seq<char>) -> QuestionView {
    QuestionView {
        question: trimmed(split(block, answer_delimiter())[0]),
        answers: choices(choice_lines(block)),
        correct: marked_index(choice_lines(block)),
    }
}

/// The test that the content of a test file holds: the title is what stands
/// before the first question delimiter, and each part after a question
/// delimiter is a question block.
pub open spec fn parsed_test(content: Seq<char>) -> TestView {
    let parts = split(content, question_delimiter());
    TestView {
        id: seq!['0'],
        title: trimmed(parts[0]),
        questions: Seq::new((parts.len() - 1) as nat, |i: int| parsed_question(parts[i + 1])),
    }
}

/// Whether a question may be imported: a text of two bytes or more, exactly
/// four choices, and one of them marked as right.
pub open spec fn valid_question(q: QuestionView) -> bool {
    &&& text_len(q.question) >= 2
    &&& q.answers.len() == CHOICES
    &&& q.correct < CHOICES
}

/// Whether a test may be imported: a title of two bytes or more, two
/// questions or more, and each of them valid.
pub open spec fn valid_structure(t: TestView) -> bool {
    &&& text_len(t.title) >= 2
    &&& t.questions.len() >= 2
    &&& forall|i: int| 0 <= i < t.questions.len() ==> valid_question(#[trigger] t.questions[i])
}

proof fn lemma_split_nonempty(s: Seq<char>, d: Seq<char>, start: int, p: int)
    ensures
        crate::text::split_from(s, d, start, p).len() >= 1,
    decreases s.len() - p,
{
    if d.len() == 0 || p < 0 || p + d.len() > s.len() {
    } else if crate::text::occurs_at(s, d, p) {
        lemma_split_nonempty(s, d, p + d.len(), p + d.len());
    } else {
        lemma_split_nonempty(s, d, start, p + 1);
    }
}

/// A test is refused for a title of less than two bytes, for less than two
/// questions, and for any question that has a text of less than two bytes,
/// that does not have exactly four choices, or whose right choice is none of
/// the four.
pub proof fn lemma_rejected(t: TestView, i: int)
    ensures
        text_len(t.title) < 2 ==> !valid_structure(t),
        t.questions.len() < 2 ==> !valid_structure(t),
        0 <= i < t.questions.len() && text_len(t.questions[i].question) < 2 ==> !valid_structure(t),
        0 <= i < t.questions.len() && t.questions[i].answers.len() != 4 ==> !valid_structure(t),
        0 <= i < t.questions.len() && t.questions[i].correct >= 4 ==> !valid_structure(t),
{
    if 0 <= i < t.questions.len() && valid_structure(t) {
        assert(valid_question(t.questions[i]));
    }
}

/// Where no line carries the marker, the position of the right choice is
/// `NO_MARKER`.
pub proof fn lemma_unmarked_lines(lines: Seq<Seq<char>>)
    requires
        forall|k: int| 0 <= k < lines.len() ==> !is_marked(#[trigger] lines[k]),
    ensures
        marked_index(lines) == NO_MARKER,
    decreases lines.len(),
{
    if lines.len() > 0 {
        assert(!is_marked(lines[lines.len() - 1]));
        lemma_unmarked_lines(lines.drop_last());
    }
}

/// A question block in which no line of choices carries the marker gives a
/// question whose right choice is out of range, and that question is not
/// valid.
pub proof fn lemma_unmarked_block_rejected(block: Seq<char>)
    requires
        forall|k: int|
            0 <= k < choice_lines(block).len() ==> !is_marked(#[trigger] choice_lines(block)[k]),
    ensures
        parsed_question(block).correct == NO_MARKER,
        !valid_question(parsed_question(block)),
{
    lemma_unmarked_lines(choice_lines(block));
}

/// A file with exactly one question block is refused.
pub proof fn lemma_single_block_rejected(content: Seq<char>)
    requires
        split(content, question_delimiter()).len() == 2,
    ensures
        parsed_test(content).questions.len() == 1,
        !valid_structure(parsed_test(content)),
{
}

/// Reads the question that stands in `block` of the text `content`, whose
/// characters are `v`.
fn parse_question_at(content: &str, v: &Vec<char>, block: Span) -> (q: QuestionModel)
    requires
        v@ == content@,
        block.within(v@.len()),
    ensures
        q@ == parsed_question(block.of(v@)),
{
    let mut dashes: Vec<char> = Vec::new();
    dashes.push('-');
    dashes.push('-');
    dashes.push('-');
    dashes.push('-');
    assert(dashes@ =~= answer_delimiter());
    let mut newline: Vec<char> = Vec::new();
    newline.push('\n');
    assert(newline@ =~= seq!['\n']);
    let splits = split_span(v, block, &dashes);
    proof {
        lemma_split_nonempty(block.of(v@), dashes@, 0, 0);
        assert(spans_of(splits@, v@).len() == splits@.len());
        assert(spans_of(splits@, v@)[0] == splits@[0].of(v@));
    }
    let question = span_text(content, trim_span(v, splits[0]));
    let mut answers: Vec<String> = Vec::new();
    let mut correct: u8 = NO_MARKER;
    if splits.len() > 1 {
        assert(spans_of(splits@, v@)[1] == splits@[1].of(v@));
        let lines = split_span(v, splits[1], &newline);
        let ghost all = spans_of(lines@, v@);
        let mut i: usize = 0;
        while i < lines.len()
            invariant
                v@ == content@,
                i <= lines@.len(),
                all == spans_of(lines@, v@),
                forall|k: int| 0 <= k < lines@.len() ==> (#[trigger] lines@[k]).within(v@.len()),
                texts(answers@) == choices(nonempty_lines(all.take(i as int))),
                answers@.len() == nonempty_lines(all.take(i as int)).len(),
                correct == marked_index(nonempty_lines(all.take(i as int))),
            decreases lines@.len() - i,
        {
            let line = lines[i];
            let ghost kept = nonempty_lines(all.take(i as int));
            proof {
                assert(all.take(i + 1).drop_last() =~= all.take(i as int));
                assert(all.take(i + 1).last() == line.of(v@));
            }
            if line.lo < line.hi {
                let marked: bool = v[line.lo] == MARKER;
                let body = if marked {
                    Span { lo: line.lo + 1, hi: line.hi }
                } else {
                    line
                };
                proof {
                    assert(marked == is_marked(line.of(v@)));
                    if marked {
                        assert(body.of(v@) =~= line.of(v@).drop_first());
                    }
                    assert(kept.push(line.of(v@)).drop_last() =~= kept);
                }
                if marked {
                    correct = if answers.len() <= 255 {
                        answers.len() as u8
                    } else {
                        NO_MARKER
                    };
                }
                let ghost before = texts(answers@);
                answers.push(span_text(content, trim_span(v, body)));
                proof {
                    assert(texts(answers@) =~= before.push(choice_text(line.of(v@))));
                    assert(choices(kept.push(line.of(v@))) =~= choices(kept).push(
                        choice_text(line.of(v@)),
                    ));
                }
            }
            i = i + 1;
        }
        assert(all.take(lines@.len() as int) =~= all);
        assert(choice_lines(block.of(v@)) == nonempty_lines(all));
    } else {
        assert(choice_lines(block.of(v@)) =~= Seq::<Seq<char>>::empty());
        assert(texts(answers@) =~= choices(choice_lines(block.of(v@))));
    }
    QuestionModel { question, answers, correct }
}

/// Reads one question block of a test file.
pub fn parse_question(unparsed: &str) -> (q: QuestionModel)
    ensures
        q@ == parsed_question(unparsed@),
{
    let v = to_chars(unparsed);
    let whole = Span { lo: 0, hi: v.len() };
    assert(whole.of(v@) =~= unparsed@);
    parse_question_at(unparsed, &v, whole)
}

/// Reads a test out of the content of a test file.
pub fn read_file_content(message: &str) -> (t: TestModel)
    ensures
        t@ == parsed_test(message@),
{
    let v = to_chars(message);
    let whole = Span { lo: 0, hi: v.len() };
    assert(whole.of(v@) =~= message@);
    let mut equals: Vec<char> = Vec::new();
    equals.push('=');
    equals.push('=');
    equals.push('=');
    equals.push('=');
    assert(equals@ =~= question_delimiter());
    let parts = split_span(&v, whole, &equals);
    let ghost all = spans_of(parts@, v@);
    proof {
        lemma_split_nonempty(message@, equals@, 0, 0);
        assert(all.len() == parts@.len());
        assert(all[0] == parts@[0].of(v@));
    }
    let title = span_text(message, trim_span(&v, parts[0]));
    let mut questions: Vec<QuestionModel> = Vec::new();
    let mut i: usize = 1;
    while i < parts.len()
        invariant
            v@ == message@,
            1 <= i <= parts@.len(),
            all == spans_of(parts@, v@),
            forall|k: int| 0 <= k < parts@.len() ==> (#[trigger] parts@[k]).within(v@.len()),
            questions@.len() == i - 1,
            forall|k: int|
                0 <= k < i - 1 ==> (#[trigger] questions@[k])@ == parsed_question(all[k + 1]),
        decreases parts@.len() - i,
    {
        assert(all[i as int] == parts@[i as int].of(v@));
        questions.push(parse_question_at(message, &v, parts[i]));
        i = i + 1;
    }
    proof {
        reveal_strlit("0");
        assert(split(message@, question_delimiter()) == all);
        assert(question_views(questions@) =~= parsed_test(message@).questions);
    }
    let id = String::from_str("0");
    assert(id@ =~= seq!['0']);
    assert(title@ == trimmed(all[0]));
    TestModel { id, title, questions }
}

/// Decides whether a test may be imported.
pub fn validate_structure(model: &TestModel) -> (b: bool)
    ensures
        b == valid_structure(model@),
{
    if model.title.as_str().as_bytes().len() < 2 || model.questions.len() < 2 {
        return false;
    }
    let mut i: usize = 0;
    while i < model.questions.len()
        invariant
            i <= model.questions@.len(),
            forall|k: int| 0 <= k < i ==> valid_question(#[trigger] model@.questions[k]),
        decreases model.questions@.len() - i,
    {
        let question = &model.questions[i];
        if question.question.as_str().as_bytes().len() < 2 || question.correct >= CHOICES as u8
            || question.answers.len() != CHOICES {
            assert(!valid_question(model@.questions[i as int]));
            return false;
        }
        assert(valid_question(model@.questions[i as int]));
        i = i + 1;
    }
    true
}

/// The words of the log of an import, in the language in use.
#[derive(Clone, Debug)]
pub struct ImportLabels {
    pub parsing: String,
    pub valid: String,
    pub invalid: String,
    pub save: String,
    pub finished: String,
}

/// A file of the inbox: its name and what it holds.
#[derive(Clone, Debug)]
pub struct SourceFile {
    pub name: String,
    pub content: String,
}

/// The names of the files `files`, in order.
pub open spec fn file_names(files: Seq<SourceFile>) -> Seq<Seq<char>> {
    Seq::new(files.len(), |i: int| files[i].name@)
}

/// The tests that the files `files` hold, in order.
pub open spec fn file_tests(files: Seq<SourceFile>) -> Seq<TestView> {
    Seq::new(files.len(), |i: int| parsed_test(files[i].content@))
}

/// For each test of `tests`, whether it may be imported.
pub open spec fn verdicts_of(tests: Seq<TestView>) -> Seq<bool> {
    Seq::new(tests.len(), |i: int| valid_structure(tests[i]))
}

/// The items whose verdict is `which`, in order.
pub open spec fn picked<T>(items: Seq<T>, verdicts: Seq<bool>, which: bool) -> Seq<T>
    decreases items.len(),
{
    if items.len() == 0 || verdicts.len() != items.len() {
        Seq::empty()
    } else if verdicts.last() == which {
        picked(items.drop_last(), verdicts.drop_last(), which).push(items.last())
    } else {
        picked(items.drop_last(), verdicts.drop_last(), which)
    }
}

/// A line of the log that names a file or a test: the word, a colon, and the
/// name between quotes.
pub open spec fn labelled(label: Seq<char>, name: Seq<char>) -> Seq<char> {
    label + seq![':', ' '] + quoted(name)
}

/// One line under the word `label` for each of `names`, in order.
pub open spec fn labelled_all(label: Seq<char>, names: Seq<Seq<char>>) -> Seq<Seq<char>> {
    Seq::new(names.len(), |i: int| labelled(label, names[i]))
}

/// The line that separates the parts of the log: a single blank.
pub open spec fn blank() -> Seq<char> {
    seq![' ']
}

/// The line of the log that tells that a test could not be stored.
pub open spec fn failure_line(title: Seq<char>, message: Seq<char>) -> Seq<char> {
    "Error saving to db test: "@ + title + " with error: "@ + message
}

/// The line of the log for the outcome of storing the test `title`.
pub open spec fn save_line(label: Seq<char>, title: Seq<char>, outcome: Result<(), StoreError>) -> Seq<
    char,
> {
    match outcome {
        Ok(_) => labelled(label, title),
        Err(e) => failure_line(title, e.text()),
    }
}

/// The log of an import. With no file it is the closing line alone. Else it
/// holds a line for each file that was read, a line for each that is valid, a
/// line for each that is not, the lines `saves` for what was stored, and the
/// closing line, with a blank line between these parts.
pub open spec fn log_lines(
    labels: ImportLabels,
    names: Seq<Seq<char>>,
    verdicts: Seq<bool>,
    saves: Seq<Seq<char>>,
) -> Seq<Seq<char>> {
    if names.len() == 0 {
        seq![labels.finished@]
    } else {
        labelled_all(labels.parsing@, names) + seq![blank()] + labelled_all(
            labels.valid@,
            picked(names, verdicts, true),
        ) + seq![blank()] + labelled_all(labels.invalid@, picked(names, verdicts, false)) + seq![
            blank(),
        ] + saves + seq![blank(), labels.finished@]
    }
}

/// Writes a line of the log that names a file or a test.
pub fn label_line(label: &str, name: &str) -> (line: String)
    ensures
        line@ == labelled(label@, name@),
{
    proof {
        reveal_strlit(": ");
    }
    let line = label.to_owned().concat(": ").concat(debug_format(name).as_str());
    assert(line@ =~= labelled(label@, name@));
    line
}

/// Writes the line of the log for the outcome of storing the test `title`.
pub fn save_outcome_line(label: &str, title: &str, outcome: &Result<(), StoreError>) -> (line:
    String)
    ensures
        line@ == save_line(label@, title@, *outcome),
{
    match outcome {
        Ok(_) => label_line(label, title),
        Err(e) => {
            let line = "Error saving to db test: ".to_owned().concat(title).concat(
                " with error: ",
            ).concat(e.message().as_str());
            assert(line@ =~= save_line(label@, title@, *outcome));
            line
        },
    }
}

/// Stores a test and writes the line of the log for the outcome.
pub fn save_to_db(model: &TestModel, label: &str, conn: &Connection) -> (line: String)
    ensures
        is_save_line(label@, model@.title, line@),
{
    let outcome = dbservice::save_new_test(conn, model);
    let line = save_outcome_line(label, model.title.as_str(), &outcome);
    assert(save_line(label@, model@.title, outcome) == line@);
    line
}

/// Whether `line` is the line of the log for some outcome of storing the
/// test `title`.
pub open spec fn is_save_line(label: Seq<char>, title: Seq<char>, line: Seq<char>) -> bool {
    exists|outcome: Result<(), StoreError>| #[trigger] save_line(label, title, outcome) == line
}

/// Whether `saves` holds a line for each of `titles`, each the line for some
/// outcome of storing the test of that title.
pub open spec fn save_lines_for(label: Seq<char>, titles: Seq<Seq<char>>, saves: Seq<Seq<char>>) -> bool {
    &&& saves.len() == titles.len()
    &&& forall|k: int| 0 <= k < saves.len() ==> is_save_line(label, titles[k], #[trigger] saves[k])
}

/// The titles of the tests `tests`, in order.
pub open spec fn titles_of(tests: Seq<TestView>) -> Seq<Seq<char>> {
    Seq::new(tests.len(), |i: int| tests[i].title)
}

/// Puts the log of an import together.
pub fn import_log(
    labels: &ImportLabels,
    names: &Vec<String>,
    verdicts: &Vec<bool>,
    saves: Vec<String>,
) -> (logs: Vec<String>)
    requires
        verdicts@.len() == names@.len(),
    ensures
        texts(logs@) == log_lines(*labels, texts(names@), verdicts@, texts(saves@)),
{
    let mut logs: Vec<String> = Vec::new();
    if names.len() == 0 {
        logs.push(labels.finished.clone());
        assert(texts(logs@) =~= seq![labels.finished@]);
        return logs;
    }
    let ghost ns = texts(names@);
    let mut valid_logs: Vec<String> = Vec::new();
    let mut invalid_logs: Vec<String> = Vec::new();
    let mut idx: usize = 0;
    assert(ns.take(0) =~= Seq::<Seq<char>>::empty());
    assert(texts(logs@) =~= labelled_all(labels.parsing@, ns.take(0)));
    assert(texts(valid_logs@) =~= labelled_all(
        labels.valid@,
        picked(ns.take(0), verdicts@.take(0), true),
    ));
    assert(texts(invalid_logs@) =~= labelled_all(
        labels.invalid@,
        picked(ns.take(0), verdicts@.take(0), false),
    ));
    while idx < names.len()
        invariant
            verdicts@.len() == names@.len(),
            idx <= names@.len(),
            ns == texts(names@),
            texts(logs@) == labelled_all(labels.parsing@, ns.take(idx as int)),
            texts(valid_logs@) == labelled_all(
                labels.valid@,
                picked(ns.take(idx as int), verdicts@.take(idx as int), true),
            ),
            texts(invalid_logs@) == labelled_all(
                labels.invalid@,
                picked(ns.take(idx as int), verdicts@.take(idx as int), false),
            ),
        decreases names@.len() - idx,
    {
        let ghost logs_before = texts(logs@);
        let ghost valid_before = texts(valid_logs@);
        let ghost invalid_before = texts(invalid_logs@);
        proof {
            assert(ns.take(idx + 1).drop_last() =~= ns.take(idx as int));
            assert(verdicts@.take(idx + 1).drop_last() =~= verdicts@.take(idx as int));
            assert(ns.take(idx + 1).last() == names@[idx as int]@);
            assert(verdicts@.take(idx + 1).last() == verdicts@[idx as int]);
        }
        logs.push(label_line(labels.parsing.as_str(), names[idx].as_str()));
        assert(texts(logs@) =~= logs_before.push(labelled(labels.parsing@, names@[idx as int]@)));
        assert(texts(logs@) =~= labelled_all(labels.parsing@, ns.take(idx + 1)));
        if verdicts[idx] {
            valid_logs.push(label_line(labels.valid.as_str(), names[idx].as_str()));
            assert(texts(valid_logs@) =~= valid_before.push(
                labelled(labels.valid@, names@[idx as int]@),
            ));
            assert(texts(valid_logs@) =~= labelled_all(
                labels.valid@,
                picked(ns.take(idx + 1), verdicts@.take(idx + 1), true),
            ));
        } else {
            invalid_logs.push(label_line(labels.invalid.as_str(), names[idx].as_str()));
            assert(texts(invalid_logs@) =~= invalid_before.push(
                labelled(labels.invalid@, names@[idx as int]@),
            ));
            assert(texts(invalid_logs@) =~= labelled_all(
                labels.invalid@,
                picked(ns.take(idx + 1), verdicts@.take(idx + 1), false),
            ));
        }
        idx = idx + 1;
    }
    proof {
        assert(ns.take(names@.len() as int) =~= ns);
        assert(verdicts@.take(names@.len() as int) =~= verdicts@);
        reveal_strlit(" ");
        assert(" "@ =~= blank());
    }
    let ghost part1 = texts(logs@);
    let ghost part2 = texts(valid_logs@);
    let ghost part3 = texts(invalid_logs@);
    let ghost part4 = texts(saves@);
    push_line(&mut logs, " ".to_owned());
    append_lines(&mut logs, valid_logs);
    push_line(&mut logs, " ".to_owned());
    append_lines(&mut logs, invalid_logs);
    push_line(&mut logs, " ".to_owned());
    append_lines(&mut logs, saves);
    push_line(&mut logs, " ".to_owned());
    push_line(&mut logs, labels.finished.clone());
    assert(texts(logs@) =~= part1 + seq![blank()] + part2 + seq![blank()] + part3 + seq![blank()]
        + part4 + seq![blank(), labels.finished@]);
    logs
}

/// Puts `line` at the end of `logs`.
fn push_line(logs: &mut Vec<String>, line: String)
    ensures
        texts(final(logs)@) == texts(old(logs)@).push(line@),
{
    let ghost a = logs@;
    logs.push(line);
    assert(texts(logs@) =~= texts(a).push(line@));
}

/// Moves the lines of `more` to the end of `logs`.
fn append_lines(logs: &mut Vec<String>, more: Vec<String>)
    ensures
        texts(final(logs)@) == texts(old(logs)@) + texts(more@),
{
    let mut more = more;
    let ghost a = logs@;
    let ghost b = more@;
    logs.append(&mut more);
    assert(texts(logs@) =~= texts(a) + texts(b));
}

/// Reads the test of each file.
pub fn parse_files(files: &Vec<SourceFile>) -> (tests: Vec<TestModel>)
    ensures
        question_views_of(tests@) == file_tests(files@),
{
    let mut tests: Vec<TestModel> = Vec::new();
    let mut i: usize = 0;
    while i < files.len()
        invariant
            i <= files@.len(),
            tests@.len() == i,
            forall|k: int| 0 <= k < i ==> tests@[k]@ == parsed_test(files@[k].content@),
        decreases files@.len() - i,
    {
        tests.push(read_file_content(files[i].content.as_str()));
        i = i + 1;
    }
    assert(question_views_of(tests@) =~= file_tests(files@));
    tests
}

/// What the tests `v` are, in order.
pub open spec fn question_views_of(v: Seq<TestModel>) -> Seq<TestView> {
    Seq::new(v.len(), |i: int| v[i]@)
}

/// Whether `log` is the log of an import of the files `files`: the log for
/// the names of the files, for the verdicts on the tests they hold, and for
/// some outcome of storing each test that is valid.
pub open spec fn is_import_log(labels: ImportLabels, files: Seq<SourceFile>, log: Seq<Seq<char>>) -> bool {
    exists|saves: Seq<Seq<char>>|
        save_lines_for(
            labels.save@,
            picked(titles_of(file_tests(files)), verdicts_of(file_tests(files)), true),
            saves,
        ) && log == #[trigger] log_lines(
            labels,
            file_names(files),
            verdicts_of(file_tests(files)),
            saves,
        )
}

/// Reads the tests of the files, stores those that may be imported, and
/// gives the log of it all. `labels` holds the words of the log.
pub fn import_test_files(labels: &ImportLabels, conn: &Connection, files: &Vec<SourceFile>) -> (logs:
    Vec<String>)
    ensures
        is_import_log(*labels, files@, texts(logs@)),
{
    let tests = parse_files(files);
    let ghost all = file_tests(files@);
    let ghost titles = titles_of(all);
    let ghost vs = verdicts_of(all);
    let mut names: Vec<String> = Vec::new();
    let mut verdicts: Vec<bool> = Vec::new();
    let mut saves: Vec<String> = Vec::new();
    let mut idx: usize = 0;
    assert(titles.take(0) =~= Seq::<Seq<char>>::empty());
    while idx < files.len()
        invariant
            idx <= files@.len(),
            tests@.len() == files@.len(),
            all == file_tests(files@),
            all == question_views_of(tests@),
            titles == titles_of(all),
            vs == verdicts_of(all),
            names@.len() == idx,
            verdicts@.len() == idx,
            texts(names@) == file_names(files@).take(idx as int),
            verdicts@ == vs.take(idx as int),
            save_lines_for(
                labels.save@,
                picked(titles.take(idx as int), vs.take(idx as int), true),
                texts(saves@),
            ),
        decreases files@.len() - idx,
    {
        let ghost names_before = texts(names@);
        let ghost saves_before = texts(saves@);
        let ghost picked_before = picked(titles.take(idx as int), vs.take(idx as int), true);
        proof {
            assert(titles.take(idx + 1).drop_last() =~= titles.take(idx as int));
            assert(vs.take(idx + 1).drop_last() =~= vs.take(idx as int));
            assert(all[idx as int] == tests@[idx as int]@);
        }
        names.push(files[idx].name.clone());
        let ok = validate_structure(&tests[idx]);
        verdicts.push(ok);
        if ok {
            let line = save_to_db(&tests[idx], labels.save.as_str(), conn);
            saves.push(line);
            proof {
                let now = picked(titles.take(idx + 1), vs.take(idx + 1), true);
                assert(now == picked_before.push(titles[idx as int]));
                assert(texts(saves@) =~= saves_before.push(line@));
                assert forall|k: int| 0 <= k < texts(saves@).len() implies is_save_line(
                    labels.save@,
                    now[k],
                    #[trigger] texts(saves@)[k],
                ) by {
                    if k < saves_before.len() {
                        assert(now[k] == picked_before[k]);
                        assert(texts(saves@)[k] == saves_before[k]);
                    }
                }
            }
        }
        proof {
            assert(texts(names@) =~= names_before.push(files@[idx as int].name@));
            assert(texts(names@) =~= file_names(files@).take(idx + 1));
            assert(verdicts@ =~= vs.take(idx + 1));
        }
        idx = idx + 1;
    }
    proof {
        assert(titles.take(files@.len() as int) =~= titles);
        assert(vs.take(files@.len() as int) =~= vs);
        assert(file_names(files@).take(files@.len() as int) =~= file_names(files@));
    }
    let ghost save_texts = texts(saves@);
    let logs = import_log(labels, &names, &verdicts, saves);
    assert(texts(logs@) == log_lines(*labels, file_names(files@), vs, save_texts));
    logs
}

} // verus!
