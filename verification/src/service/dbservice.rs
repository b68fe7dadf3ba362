use crate::models::test::{
    answer_views, question_views, texts, AnswerModel, AnswerView, QuestionModel, QuestionView,
    ResultModel, ResultView, TestModel, TestView,
};
use crate::clock::{date_at, date_today, unix_seconds};
use crate::service::sql::{
    arg_views, cell_index, cell_text, cell_views, collect_rows, entities, execute, index_of, kept,
    prepare, query_all, query_first, row_cells, statement_execute, store_error,
    text_of,
    ArgView, CellView, FromRow, RowResult, SqlArg, SqlCell, StoreError,
};
use rusqlite::Connection;
use crate::text::{decimal, u64_to_string};
use vstd::prelude::*;
use vstd::string::StringExecFns;

verus! {

/// The value stored for the choice of an answer that was left open.
pub const NOT_GIVEN: usize = 42;

/// The name under which a test is shown: its date in brackets, then its name.
pub open spec fn full_name(name: Seq<char>, date: Seq<char>) -> Seq<char> {
    seq!['['] + date + seq![']', ' '] + name
}

/// What a row of the relation of tests is.
pub struct ExamRow {
    pub id: usize,
    pub name: Seq<char>,
    pub date: Seq<char>,
}

impl ExamRow {
    /// The test that this row stores, with the questions `questions`: its
    /// identifier is the number of the row and its title the name it was
    /// stored under.
    pub open spec fn stored_test(self, questions: Seq<QuestionView>) -> TestView {
        TestView { id: decimal(self.id as nat), title: self.name, questions }
    }

    /// The result of the test that this row stores, with the records
    /// `answers`.
    pub open spec fn stored_result(self, answers: Seq<AnswerView>, total_time: u64) -> ResultView {
        ResultView { id: decimal(self.id as nat), title: self.name, answers, total_time }
    }

    /// The test of this row as a list shows it, with the questions
    /// `questions`: its title is the name under which the test is shown.
    pub open spec fn model(self, questions: Seq<QuestionView>) -> TestView {
        TestView {
            id: decimal(self.id as nat),
            title: full_name(self.name, self.date),
            questions,
        }
    }

    /// The result of the test of this row as a list shows it, with the
    /// records `answers`.
    pub open spec fn result(self, answers: Seq<AnswerView>, total_time: u64) -> ResultView {
        ResultView {
            id: decimal(self.id as nat),
            title: full_name(self.name, self.date),
            answers,
            total_time,
        }
    }
}

/// A row of the relation of tests.
#[derive(Clone, Debug)]
pub struct TestE {
    pub id: usize,
    pub name: String,
    pub date: String,
}

impl View for TestE {
    type V = ExamRow;

    open spec fn view(&self) -> ExamRow {
        ExamRow { id: self.id, name: self.name@, date: self.date@ }
    }
}

impl TestE {
    /// The name under which the test is shown.
    pub fn get_full_name(&self) -> (s: String)
        ensures
            s@ == full_name(self.name@, self.date@),
    {
        proof {
            reveal_strlit("[");
            reveal_strlit("] ");
        }
        let s = String::from_str("[").concat(self.date.as_str()).concat("] ").concat(
            self.name.as_str(),
        );
        assert(s@ =~= full_name(self.name@, self.date@));
        s
    }

    /// The identifier and the name under which the test is listed.
    pub fn get_short(&self) -> (r: (String, String))
        ensures
            r.0@ == decimal(self.id as nat),
            r.1@ == full_name(self.name@, self.date@),
    {
        (u64_to_string(self.id as u64), self.get_full_name())
    }

    /// The test that this row stores, with the questions `questions`.
    pub fn to_stored_test(&self, questions: Vec<QuestionModel>) -> (t: TestModel)
        ensures
            t@ == self@.stored_test(question_views(questions@)),
    {
        TestModel::new(u64_to_string(self.id as u64), self.name.clone(), questions)
    }

    /// The result of the test that this row stores, with the records
    /// `answers`.
    pub fn to_stored_result(&self, answers: Vec<AnswerModel>, total_time: u64) -> (r: ResultModel)
        ensures
            r@ == self@.stored_result(answer_views(answers@), total_time),
    {
        ResultModel::new(u64_to_string(self.id as u64), self.name.clone(), answers, total_time)
    }

    /// The test of this row as a list shows it, with the questions
    /// `questions`.
    pub fn to_model(&self, questions: Vec<QuestionModel>) -> (t: TestModel)
        ensures
            t@ == self@.model(question_views(questions@)),
    {
        TestModel::new(u64_to_string(self.id as u64), self.get_full_name(), questions)
    }

    /// The result of the test of this row as a list shows it, with the
    /// records `answers`.
    pub fn to_result(&self, answers: Vec<AnswerModel>, total_time: u64) -> (r: ResultModel)
        ensures
            r@ == self@.result(answer_views(answers@), total_time),
    {
        ResultModel::new(u64_to_string(self.id as u64), self.get_full_name(), answers, total_time)
    }
}

impl FromRow for TestE {
    type Entity = ExamRow;

    open spec fn entity(&self) -> ExamRow {
        self@
    }

    /// A row of three columns holds a test: its number, its name and its
    /// date.
    open spec fn decoded(cells: Seq<CellView>) -> Option<ExamRow> {
        if cells.len() == 3 && index_of(cells[0]) is Some && text_of(cells[1]) is Some && text_of(
            cells[2],
        ) is Some {
            Some(
                ExamRow {
                    id: index_of(cells[0])->0,
                    name: text_of(cells[1])->0,
                    date: text_of(cells[2])->0,
                },
            )
        } else {
            None
        }
    }

    fn from_row(cells: &Vec<SqlCell>) -> (r: Option<Self>) {
        if cells.len() != 3 {
            return None;
        }
        assert(forall|k: int| 0 <= k < 3 ==> cell_views(cells@)[k] == cells@[k]@);
        match (cell_index(&cells[0]), cell_text(&cells[1]), cell_text(&cells[2])) {
            (Some(id), Some(name), Some(date)) => Some(TestE { id, name, date }),
            _ => None,
        }
    }
}

/// What a row of the relation of questions is, as far as it is read.
pub struct QuestionRow {
    pub text: Seq<char>,
    pub a1: Seq<char>,
    pub a2: Seq<char>,
    pub a3: Seq<char>,
    pub a4: Seq<char>,
    pub correct: usize,
}

impl QuestionRow {
    /// The question of this row. The position of the right choice is kept
    /// modulo 256.
    pub open spec fn model(self) -> QuestionView {
        QuestionView {
            question: self.text,
            answers: seq![self.a1, self.a2, self.a3, self.a4],
            correct: (self.correct % 256) as u8,
        }
    }
}

/// The questions of the rows `rows`, in order.
pub open spec fn question_models(rows: Seq<QuestionRow>) -> Seq<QuestionView> {
    Seq::new(rows.len(), |i: int| rows[i].model())
}

/// A row of the relation of questions, as far as it is read.
#[derive(Clone, Debug)]
pub struct QuestionE {
    pub text: String,
    pub a1: String,
    pub a2: String,
    pub a3: String,
    pub a4: String,
    pub correct: usize,
}

impl View for QuestionE {
    type V = QuestionRow;

    open spec fn view(&self) -> QuestionRow {
        QuestionRow {
            text: self.text@,
            a1: self.a1@,
            a2: self.a2@,
            a3: self.a3@,
            a4: self.a4@,
            correct: self.correct,
        }
    }
}

impl QuestionE {
    /// The question of this row.
    pub fn to_model(&self) -> (q: QuestionModel)
        ensures
            q@ == self@.model(),
    {
        let mut answers: Vec<String> = Vec::new();
        answers.push(self.a1.clone());
        answers.push(self.a2.clone());
        answers.push(self.a3.clone());
        answers.push(self.a4.clone());
        assert(texts(answers@) =~= seq![self.a1@, self.a2@, self.a3@, self.a4@]);
        QuestionModel::new(self.text.clone(), answers, (self.correct % 256) as u8)
    }
}

impl FromRow for QuestionE {
    type Entity = QuestionRow;

    open spec fn entity(&self) -> QuestionRow {
        self@
    }

    /// A row of six columns holds a question: its text, its four choices and
    /// the position of the right one.
    open spec fn decoded(cells: Seq<CellView>) -> Option<QuestionRow> {
        if cells.len() == 6 && text_of(cells[0]) is Some && text_of(cells[1]) is Some && text_of(
            cells[2],
        ) is Some && text_of(cells[3]) is Some && text_of(cells[4]) is Some && index_of(cells[5])
            is Some {
            Some(
                QuestionRow {
                    text: text_of(cells[0])->0,
                    a1: text_of(cells[1])->0,
                    a2: text_of(cells[2])->0,
                    a3: text_of(cells[3])->0,
                    a4: text_of(cells[4])->0,
                    correct: index_of(cells[5])->0,
                },
            )
        } else {
            None
        }
    }

    fn from_row(cells: &Vec<SqlCell>) -> (r: Option<Self>) {
        if cells.len() != 6 {
            return None;
        }
        assert(forall|k: int| 0 <= k < 6 ==> cell_views(cells@)[k] == cells@[k]@);
        match (
            cell_text(&cells[0]),
            cell_text(&cells[1]),
            cell_text(&cells[2]),
            cell_text(&cells[3]),
            cell_text(&cells[4]),
            cell_index(&cells[5]),
        ) {
            (Some(text), Some(a1), Some(a2), Some(a3), Some(a4), Some(correct)) => Some(
                QuestionE { text, a1, a2, a3, a4, correct },
            ),
            _ => None,
        }
    }
}

/// What a row of the latest result of a test is, joined with its question.
pub struct AnswerRow {
    pub given: usize,
    pub time: usize,
    pub text: Seq<char>,
    pub a1: Seq<char>,
    pub a2: Seq<char>,
    pub a3: Seq<char>,
    pub a4: Seq<char>,
    pub correct: usize,
}

impl AnswerRow {
    /// The record of this row. The reserved value `NOT_GIVEN` stands for a
    /// choice that was left open, and the choice is right where it is the
    /// position of the right one.
    pub open spec fn model(self) -> AnswerView {
        AnswerView {
            question: self.text,
            answers: seq![self.a1, self.a2, self.a3, self.a4],
            correct: (self.correct % 256) as u8,
            given: if self.given == NOT_GIVEN {
                None
            } else {
                Some(self.given)
            },
            is_correct: self.given == self.correct,
            time: self.time as u64,
        }
    }
}

/// The records of the rows `rows`, in order.
pub open spec fn answer_models(rows: Seq<AnswerRow>) -> Seq<AnswerView> {
    Seq::new(rows.len(), |i: int| rows[i].model())
}

/// A row of the latest result of a test, joined with its question.
#[derive(Clone, Debug)]
pub struct AnswerE {
    pub given: usize,
    pub time: usize,
    pub text: String,
    pub a1: String,
    pub a2: String,
    pub a3: String,
    pub a4: String,
    pub correct: usize,
}

impl View for AnswerE {
    type V = AnswerRow;

    open spec fn view(&self) -> AnswerRow {
        AnswerRow {
            given: self.given,
            time: self.time,
            text: self.text@,
            a1: self.a1@,
            a2: self.a2@,
            a3: self.a3@,
            a4: self.a4@,
            correct: self.correct,
        }
    }
}

impl AnswerE {
    /// The record of this row.
    pub fn to_model(&self) -> (a: AnswerModel)
        ensures
            a@ == self@.model(),
    {
        let mut g: Option<usize> = Some(self.given);
        if self.given == NOT_GIVEN {
            g = None;
        }
        let mut answers: Vec<String> = Vec::new();
        answers.push(self.a1.clone());
        answers.push(self.a2.clone());
        answers.push(self.a3.clone());
        answers.push(self.a4.clone());
        assert(texts(answers@) =~= seq![self.a1@, self.a2@, self.a3@, self.a4@]);
        AnswerModel::new(
            self.text.clone(),
            answers,
            (self.correct % 256) as u8,
            g,
            self.given == self.correct,
            self.time as u64,
        )
    }
}

impl FromRow for AnswerE {
    type Entity = AnswerRow;

    open spec fn entity(&self) -> AnswerRow {
        self@
    }

    /// A row of eight columns holds a record: the choice, the seconds, and
    /// the six columns of the question.
    open spec fn decoded(cells: Seq<CellView>) -> Option<AnswerRow> {
        if cells.len() == 8 && index_of(cells[0]) is Some && index_of(cells[1]) is Some
            && QuestionE::decoded(cells.subrange(2, 8)) is Some {
            let q = QuestionE::decoded(cells.subrange(2, 8))->0;
            Some(
                AnswerRow {
                    given: index_of(cells[0])->0,
                    time: index_of(cells[1])->0,
                    text: q.text,
                    a1: q.a1,
                    a2: q.a2,
                    a3: q.a3,
                    a4: q.a4,
                    correct: q.correct,
                },
            )
        } else {
            None
        }
    }

    fn from_row(cells: &Vec<SqlCell>) -> (r: Option<Self>) {
        if cells.len() != 8 {
            return None;
        }
        proof {
            let v = cell_views(cells@);
            assert(forall|k: int| 0 <= k < 8 ==> v[k] == cells@[k]@);
            assert(forall|k: int| 0 <= k < 6 ==> v.subrange(2, 8)[k] == v[k + 2]);
        }
        match (
            cell_index(&cells[0]),
            cell_index(&cells[1]),
            cell_text(&cells[2]),
            cell_text(&cells[3]),
            cell_text(&cells[4]),
            cell_text(&cells[5]),
            cell_text(&cells[6]),
            cell_index(&cells[7]),
        ) {
            (
                Some(given),
                Some(time),
                Some(text),
                Some(a1),
                Some(a2),
                Some(a3),
                Some(a4),
                Some(correct),
            ) => Some(AnswerE { given, time, text, a1, a2, a3, a4, correct }),
            _ => None,
        }
    }
}

/// The sum of the seconds of the records `answers`.
pub open spec fn total_seconds(answers: Seq<AnswerView>) -> nat
    decreases answers.len(),
{
    if answers.len() == 0 {
        0
    } else {
        total_seconds(answers.drop_last()) + answers.last().time as nat
    }
}

/// The number `n` as far as a `u64` holds it: the largest `u64` stands for
/// every number above it.
pub open spec fn capped(n: nat) -> u64 {
    if n <= u64::MAX {
        n as u64
    } else {
        u64::MAX
    }
}

/// Adds up the seconds of the records, stopping at the largest `u64`.
pub fn sum_times(answers: &Vec<AnswerModel>) -> (total: u64)
    ensures
        total == capped(total_seconds(answer_views(answers@))),
{
    let ghost all = answer_views(answers@);
    let mut total: u64 = 0;
    let mut i: usize = 0;
    while i < answers.len()
        invariant
            i <= answers@.len(),
            all == answer_views(answers@),
            total == capped(total_seconds(all.take(i as int))),
        decreases answers@.len() - i,
    {
        proof {
            assert(all.take(i + 1).drop_last() =~= all.take(i as int));
            assert(all.take(i + 1).last().time == answers@[i as int].time);
        }
        total = total.saturating_add(answers[i].time);
        i = i + 1;
    }
    assert(all.take(answers@.len() as int) =~= all);
    total
}

/// Turns the rows of the questions of a test into questions.
pub fn questions_from(rows: &Vec<QuestionE>) -> (r: Vec<QuestionModel>)
    ensures
        question_views(r@) == question_models(entities(rows@)),
{
    let mut r: Vec<QuestionModel> = Vec::new();
    let mut i: usize = 0;
    while i < rows.len()
        invariant
            i <= rows@.len(),
            r@.len() == i,
            forall|k: int| 0 <= k < i ==> r@[k]@ == rows@[k]@.model(),
        decreases rows@.len() - i,
    {
        r.push(rows[i].to_model());
        i = i + 1;
    }
    assert(question_views(r@) =~= question_models(entities(rows@)));
    r
}

/// Turns the rows of a result into records.
pub fn answers_from(rows: &Vec<AnswerE>) -> (r: Vec<AnswerModel>)
    ensures
        answer_views(r@) == answer_models(entities(rows@)),
{
    let mut r: Vec<AnswerModel> = Vec::new();
    let mut i: usize = 0;
    while i < rows.len()
        invariant
            i <= rows@.len(),
            r@.len() == i,
            forall|k: int| 0 <= k < i ==> r@[k]@ == rows@[k]@.model(),
        decreases rows@.len() - i,
    {
        r.push(rows[i].to_model());
        i = i + 1;
    }
    assert(answer_views(r@) =~= answer_models(entities(rows@)));
    r
}

/// The list that the rows of a query for tests give: for each test its
/// identifier and the name under which it is shown.
pub open spec fn listing(rows: Seq<RowResult>) -> Seq<(Seq<char>, Seq<char>)> {
    let exams = kept::<TestE>(rows);
    Seq::new(exams.len(), |i: int| (decimal(exams[i].id as nat), full_name(exams[i].name, exams[i].date)))
}

/// What the pairs `v` hold, in order.
pub open spec fn pair_texts(v: Seq<(String, String)>) -> Seq<(Seq<char>, Seq<char>)> {
    Seq::new(v.len(), |i: int| (v[i].0@, v[i].1@))
}

/// Lists the tests that the rows of a query hold.
pub fn list_from(rows: &Vec<RowResult>) -> (results: Vec<(String, String)>)
    ensures
        pair_texts(results@) == listing(rows@),
{
    let exams: Vec<TestE> = collect_rows(rows);
    let mut results: Vec<(String, String)> = Vec::new();
    let mut i: usize = 0;
    while i < exams.len()
        invariant
            i <= exams@.len(),
            results@.len() == i,
            forall|k: int|
                0 <= k < i ==> results@[k].0@ == decimal(exams@[k].id as nat) && results@[k].1@
                    == full_name(exams@[k].name@, exams@[k].date@),
        decreases exams@.len() - i,
    {
        results.push(exams[i].get_short());
        i = i + 1;
    }
    assert(pair_texts(results@) =~= listing(rows@));
    results
}

/// The test that the row `exam` of a test and the rows `rows` of its
/// questions give; none where `exam` holds no test.
pub open spec fn test_of_rows(exam: Seq<CellView>, rows: Seq<RowResult>) -> Option<TestView> {
    match TestE::decoded(exam) {
        Some(e) => Some(e.stored_test(question_models(kept::<QuestionE>(rows)))),
        None => None,
    }
}

/// Puts a test together from the row of the test and the rows of its
/// questions.
pub fn test_from_rows(exam: &Vec<SqlCell>, rows: &Vec<RowResult>) -> (r: Option<TestModel>)
    ensures
        crate::screens::runner::test_view(r) == test_of_rows(cell_views(exam@), rows@),
{
    match TestE::from_row(exam) {
        Some(e) => {
            let question_rows: Vec<QuestionE> = collect_rows(rows);
            Some(e.to_stored_test(questions_from(&question_rows)))
        },
        None => None,
    }
}

/// The result that the row `exam` of a test and the rows `rows` of its
/// latest result give; none where `exam` holds no test. The total time is
/// the sum of the seconds of the records.
pub open spec fn result_of_rows(exam: Seq<CellView>, rows: Seq<RowResult>) -> Option<ResultView> {
    match TestE::decoded(exam) {
        Some(e) => {
            let answers = answer_models(kept::<AnswerE>(rows));
            Some(e.stored_result(answers, capped(total_seconds(answers))))
        },
        None => None,
    }
}

/// Puts a result together from the row of the test and the rows of its
/// latest result.
pub fn result_from_rows(exam: &Vec<SqlCell>, rows: &Vec<RowResult>) -> (r: Option<ResultModel>)
    ensures
        crate::screens::runner::result_view(r) == result_of_rows(cell_views(exam@), rows@),
{
    match TestE::from_row(exam) {
        Some(e) => {
            let answer_rows: Vec<AnswerE> = collect_rows(rows);
            let answers = answers_from(&answer_rows);
            let total_time = sum_times(&answers);
            Some(e.to_stored_result(answers, total_time))
        },
        None => None,
    }
}

/// The arguments with which a test is written: its name, its date and its
/// status.
pub fn exam_args(title: &String, date: &String, status: &str) -> (args: Vec<SqlArg>)
    ensures
        arg_views(args@) == seq![
            ArgView::Text(title@),
            ArgView::Text(date@),
            ArgView::Text(status@),
        ],
{
    let mut args: Vec<SqlArg> = Vec::new();
    args.push(SqlArg::Text(title.clone()));
    args.push(SqlArg::Text(date.clone()));
    args.push(SqlArg::Text(status.to_owned()));
    assert(arg_views(args@) =~= seq![
        ArgView::Text(title@),
        ArgView::Text(date@),
        ArgView::Text(status@),
    ]);
    args
}

/// The arguments with which the question `q` is written as the question
/// number `number` of the test `exam_id`: the number, the text, the four
/// choices, the position of the right one, and the test. None where the
/// question does not have exactly four choices or the number is too large.
pub open spec fn question_row_args(number: nat, q: QuestionView, exam_id: i64) -> Option<
    Seq<ArgView>,
> {
    if q.answers.len() == 4 && number <= i64::MAX {
        Some(
            seq![
                ArgView::Int(number as i64),
                ArgView::Text(q.question),
                ArgView::Text(q.answers[0]),
                ArgView::Text(q.answers[1]),
                ArgView::Text(q.answers[2]),
                ArgView::Text(q.answers[3]),
                ArgView::Int(q.correct as i64),
                ArgView::Int(exam_id),
            ],
        )
    } else {
        None
    }
}

/// What optional arguments are.
pub open spec fn optional_args(args: Option<Vec<SqlArg>>) -> Option<Seq<ArgView>> {
    match args {
        Some(a) => Some(arg_views(a@)),
        None => None,
    }
}

/// Computes [`question_row_args`].
pub fn question_args(number: usize, q: &QuestionModel, exam_id: i64) -> (args: Option<Vec<SqlArg>>)
    ensures
        optional_args(args) == question_row_args(number as nat, q@, exam_id),
{
    if q.answers.len() != 4 || number as u64 > i64::MAX as u64 {
        return None;
    }
    let mut args: Vec<SqlArg> = Vec::new();
    args.push(SqlArg::Int(number as i64));
    args.push(SqlArg::Text(q.question.clone()));
    args.push(SqlArg::Text(q.answers[0].clone()));
    args.push(SqlArg::Text(q.answers[1].clone()));
    args.push(SqlArg::Text(q.answers[2].clone()));
    args.push(SqlArg::Text(q.answers[3].clone()));
    args.push(SqlArg::Int(q.correct as i64));
    args.push(SqlArg::Int(exam_id));
    assert(arg_views(args@) =~= question_row_args(number as nat, q@, exam_id)->0);
    Some(args)
}

/// The arguments with which the record `a` is written as the answer to the
/// question number `number` of the test `id` at the time `date`: the test,
/// the number, the choice (`NOT_GIVEN` where it was left open), the seconds
/// and the time. None where a number is too large for the database.
pub open spec fn answer_row_args(id: Seq<char>, number: nat, a: AnswerView, date: u64) -> Option<
    Seq<ArgView>,
> {
    let given = match a.given {
        Some(g) => g,
        None => NOT_GIVEN,
    };
    if number <= i64::MAX && given <= i64::MAX && a.time <= i64::MAX && date <= i64::MAX {
        Some(
            seq![
                ArgView::Text(id),
                ArgView::Int(number as i64),
                ArgView::Int(given as i64),
                ArgView::Int(a.time as i64),
                ArgView::Int(date as i64),
            ],
        )
    } else {
        None
    }
}

/// Computes [`answer_row_args`].
pub fn answer_args(id: &String, number: usize, a: &AnswerModel, date: u64) -> (args: Option<
    Vec<SqlArg>,
>)
    ensures
        optional_args(args) == answer_row_args(id@, number as nat, a@, date),
{
    let given: usize = match a.given {
        Some(g) => g,
        None => NOT_GIVEN,
    };
    if number as u64 > i64::MAX as u64 || given as u64 > i64::MAX as u64 || a.time > i64::MAX as u64
        || date > i64::MAX as u64 {
        return None;
    }
    let mut args: Vec<SqlArg> = Vec::new();
    args.push(SqlArg::Text(id.clone()));
    args.push(SqlArg::Int(number as i64));
    args.push(SqlArg::Int(given as i64));
    args.push(SqlArg::Int(a.time as i64));
    args.push(SqlArg::Int(date as i64));
    assert(arg_views(args@) =~= answer_row_args(id@, number as nat, a@, date)->0);
    Some(args)
}

/// The query for the tests of one status.
pub const SELECT_BY_STATUS: &'static str = "SELECT id, name, date FROM exam WHERE status = :status";

/// The query for one test.
pub const SELECT_EXAM: &'static str = "SELECT id, name, date FROM exam WHERE exam.id = :id";

/// The query for the questions of one test, in the order of their numbers.
pub const SELECT_QUESTIONS: &'static str =
    "SELECT text, a1, a2, a3, a4, correct FROM question WHERE examid = :id ORDER BY number ASC";

/// The query for the latest result of one test: the rows of the test that
/// carry the latest time, each joined with its question, in the order of the
/// questions.
pub const SELECT_LATEST_RESULT: &'static str =
    "SELECT result.given, result.time, question.text, question.a1, question.a2, question.a3, \
question.a4, question.correct FROM result JOIN question ON result.qnumber = question.number \
AND result.examid = question.examid WHERE question.examid = :id AND result.date = \
(SELECT MAX(date) FROM result WHERE examid = :id) ORDER BY question.number ASC";

/// The statement that sets the status of one test.
pub const UPDATE_STATUS: &'static str = "UPDATE exam SET status = :status WHERE id = :id";

/// The statement that adds one row of a result.
pub const INSERT_RESULT: &'static str =
    "INSERT INTO result (examid, qnumber, given, time, date) VALUES (?1, ?2, ?3, ?4, ?5)";

/// The statement that adds a test.
pub const INSERT_EXAM: &'static str = "INSERT INTO exam (name, date, status) VALUES (?1, ?2, ?3)";

/// The statement that adds a test and gives back the number it got.
pub const INSERT_EXAM_RETURNING: &'static str =
    "INSERT INTO exam (name, date, status) VALUES (?1, ?2, ?3) RETURNING id";

/// The statement that adds a question.
pub const INSERT_QUESTION: &'static str =
    "INSERT INTO question (number, text, a1, a2, a3, a4, correct, examid) \
VALUES (?1, ?2, ?3, ?4, ?5, ?6, ?7, ?8)";

/// The statement that makes the relation of tests.
pub const CREATE_EXAM: &'static str =
    "CREATE TABLE IF NOT EXISTS exam (
            id INTEGER PRIMARY KEY,
            name TEXT NOT NULL,
            date TEXT NOT NULL,
            status TEXT NOT NULL
        ) STRICT";

/// The statement that makes the relation of questions.
pub const CREATE_QUESTION: &'static str =
    "CREATE TABLE IF NOT EXISTS question (
          id INTEGER PRIMARY KEY,
          number INTEGER,
          text TEXT NOT NULL,
          a1 TEXT NOT NULL,
          a2 TEXT NOT NULL,
          a3 TEXT,
          a4 TEXT,
          correct INTEGER NOT NULL,
          examid INTEGER REFERENCES exam(id)
        ) STRICT";

/// The statement that makes the relation of results.
pub const CREATE_RESULT: &'static str =
    "CREATE TABLE IF NOT EXISTS result (
            id INTEGER PRIMARY KEY,
            examid INTEGER REFERENCES exam(id),
            qnumber INTEGER,
            given INTEGER,
            time INTEGER,
            date INTEGER
        ) STRICT";

/// The single argument `text`.
fn one_text(text: &str) -> (args: Vec<SqlArg>)
    ensures
        arg_views(args@) == seq![ArgView::Text(text@)],
{
    let mut args: Vec<SqlArg> = Vec::new();
    args.push(SqlArg::Text(text.to_owned()));
    assert(arg_views(args@) =~= seq![ArgView::Text(text@)]);
    args
}

/// Whether `v` is a list of tests as the store gives it.
pub open spec fn is_listing(v: Seq<(Seq<char>, Seq<char>)>) -> bool {
    exists|rows: Seq<RowResult>| #[trigger] listing(rows) == v
}

/// Lists the tests of the status `status`: for each its identifier and the
/// name under which it is shown. Fails where the database does.
pub fn get_by_status(conn: &Connection, status: &str) -> (r: Result<
    Vec<(String, String)>,
    StoreError,
>)
    ensures
        r matches Ok(v) ==> is_listing(pair_texts(v@)),
        r matches Err(e) ==> e is Database,
{
    let args = one_text(status);
    match query_all(conn, SELECT_BY_STATUS, &args, 3) {
        Ok(rows) => {
            let results = list_from(&rows);
            assert(listing(rows@) == pair_texts(results@));
            Ok(results)
        },
        Err(e) => Err(store_error(&e)),
    }
}

/// Whether `t` is a test as the store gives it.
pub open spec fn is_stored_test(t: TestView) -> bool {
    exists|exam: Seq<CellView>, rows: Seq<RowResult>| #[trigger]
        test_of_rows(exam, rows) == Some(t)
}

/// Looks up the test `id` with its questions in the order of their numbers.
/// Gives nothing where there is no such test or the database fails.
pub fn get_test_by_id(conn: &Connection, id: String) -> (r: Option<TestModel>)
    ensures
        r matches Some(t) ==> is_stored_test(t@),
{
    let args = one_text(id.as_str());
    let exam = match query_first(conn, SELECT_EXAM, &args, 3) {
        Ok(cells) => cells,
        Err(_) => {
            return None;
        },
    };
    let rows = match query_all(conn, SELECT_QUESTIONS, &args, 6) {
        Ok(rows) => rows,
        Err(_) => {
            return None;
        },
    };
    let r = test_from_rows(&exam, &rows);
    proof {
        if r is Some {
            assert(test_of_rows(cell_views(exam@), rows@) == Some(r->0@));
        }
    }
    r
}

/// Whether `r` is a result as the store gives it.
pub open spec fn is_stored_result(r: ResultView) -> bool {
    exists|exam: Seq<CellView>, rows: Seq<RowResult>| #[trigger]
        result_of_rows(exam, rows) == Some(r)
}

/// Looks up the latest result of the test `id`. Gives nothing where there is
/// no such test or the database fails.
pub fn get_result_by_id(conn: &Connection, id: String) -> (r: Option<ResultModel>)
    ensures
        r matches Some(res) ==> is_stored_result(res@),
{
    let args = one_text(id.as_str());
    let exam = match query_first(conn, SELECT_EXAM, &args, 3) {
        Ok(cells) => cells,
        Err(_) => {
            return None;
        },
    };
    let rows = match query_all(conn, SELECT_LATEST_RESULT, &args, 8) {
        Ok(rows) => rows,
        Err(_) => {
            return None;
        },
    };
    let r = result_from_rows(&exam, &rows);
    proof {
        if r is Some {
            assert(result_of_rows(cell_views(exam@), rows@) == Some(r->0@));
        }
    }
    r
}

/// The arguments with which the status of a test is set: the status, then
/// the identifier of the test.
pub fn status_args(status: &str, id: &String) -> (args: Vec<SqlArg>)
    ensures
        arg_views(args@) == seq![ArgView::Text(status@), ArgView::Text(id@)],
{
    let mut args: Vec<SqlArg> = Vec::new();
    args.push(SqlArg::Text(status.to_owned()));
    args.push(SqlArg::Text(id.clone()));
    assert(arg_views(args@) =~= seq![ArgView::Text(status@), ArgView::Text(id@)]);
    args
}

/// Sets the status of the test `id`. Fails where the database does.
pub fn update_status(conn: &Connection, id: String, status: &str) -> (r: Result<(), StoreError>)
    ensures
        r matches Err(e) ==> e is Database,
{
    let args = status_args(status, &id);
    match prepare(conn, UPDATE_STATUS) {
        Ok(mut stmt) => match statement_execute(&mut stmt, &args) {
            Ok(_) => Ok(()),
            Err(e) => Err(store_error(&e)),
        },
        Err(e) => Err(store_error(&e)),
    }
}

/// Whether each record of `result` can be written at the time `date`.
pub open spec fn result_storable(result: ResultView, date: u64) -> bool {
    forall|i: int|
        0 <= i < result.answers.len() ==> (#[trigger] answer_row_args(
            result.id,
            (i + 1) as nat,
            result.answers[i],
            date,
        )) is Some
}

/// The rows to write for `result` at the time `date`: one for each record,
/// numbered from 1 in the order of the records. None where a record cannot
/// be written.
pub fn result_rows(result: &ResultModel, date: u64) -> (rows: Option<Vec<Vec<SqlArg>>>)
    ensures
        rows is Some == result_storable(result@, date),
        rows matches Some(v) ==> v@.len() == result@.answers.len() && forall|i: int|
            0 <= i < v@.len() ==> Some(arg_views((#[trigger] v@[i])@)) == answer_row_args(
                result@.id,
                (i + 1) as nat,
                result@.answers[i],
                date,
            ),
{
    let mut rows: Vec<Vec<SqlArg>> = Vec::new();
    let mut idx: usize = 0;
    while idx < result.answers.len()
        invariant
            idx <= result.answers@.len(),
            rows@.len() == idx,
            forall|i: int|
                0 <= i < idx ==> (#[trigger] answer_row_args(
                    result@.id,
                    (i + 1) as nat,
                    result@.answers[i],
                    date,
                )) is Some,
            forall|i: int|
                0 <= i < idx ==> Some(arg_views((#[trigger] rows@[i])@)) == answer_row_args(
                    result@.id,
                    (i + 1) as nat,
                    result@.answers[i],
                    date,
                ),
        decreases result.answers@.len() - idx,
    {
        assert(result@.answers[idx as int] == result.answers@[idx as int]@);
        match answer_args(&result.id, idx + 1, &result.answers[idx], date) {
            Some(args) => rows.push(args),
            None => {
                assert(answer_row_args(
                    result@.id,
                    (idx + 1) as nat,
                    result@.answers[idx as int],
                    date,
                ) is None);
                return None;
            },
        }
        idx = idx + 1;
    }
    Some(rows)
}

/// Adds the rows of `result` under the time `date`, without touching what is
/// stored already. Nothing is written where a record cannot be written; the
/// first row that the database refuses ends the call.
pub fn save_result_at(conn: &Connection, result: &ResultModel, date: u64) -> (r: Result<
    (),
    StoreError,
>)
    ensures
        r == Err::<(), StoreError>(StoreError::Malformed) <==> !result_storable(result@, date),
{
    let rows = match result_rows(result, date) {
        Some(rows) => rows,
        None => {
            return Err(StoreError::Malformed);
        },
    };
    let mut i: usize = 0;
    while i < rows.len()
        invariant
            i <= rows@.len(),
            result_storable(result@, date),
        decreases rows@.len() - i,
    {
        match execute(conn, INSERT_RESULT, &rows[i]) {
            Ok(_) => {},
            Err(e) => {
                return Err(store_error(&e));
            },
        }
        i = i + 1;
    }
    Ok(())
}

/// Whether `r` is an outcome of storing `result` at the time `date`: the
/// result is refused as malformed where one of its records cannot be written
/// at that time, and only there.
pub open spec fn saved_at(result: ResultView, date: u64, r: Result<(), StoreError>) -> bool {
    r == Err::<(), StoreError>(StoreError::Malformed) <==> !result_storable(result, date)
}

/// Adds the rows of `result` under the time the wall clock shows: whatever
/// that time is, the call is an outcome of storing the result at it.
pub fn save_result(conn: &Connection, result: ResultModel) -> (r: Result<(), StoreError>)
    ensures
        exists|date: u64| saved_at(result@, date, r),
{
    let date = unix_seconds();
    let r = save_result_at(conn, &result, date);
    assert(saved_at(result@, date, r));
    r
}

/// Whether each question of `t` can be written: it has exactly four choices.
pub open spec fn test_storable(t: TestView) -> bool {
    forall|i: int|
        0 <= i < t.questions.len() ==> (#[trigger] question_row_args(
            (i + 1) as nat,
            t.questions[i],
            0,
        )) is Some
}

/// The rows to write for the questions of `model` as those of the test
/// `exam_id`: one for each question, numbered from 1 in the order of the
/// questions. None where a question cannot be written.
pub fn question_rows(model: &TestModel, exam_id: i64) -> (rows: Option<Vec<Vec<SqlArg>>>)
    ensures
        rows is Some == test_storable(model@),
        rows matches Some(v) ==> v@.len() == model@.questions.len() && forall|i: int|
            0 <= i < v@.len() ==> Some(arg_views((#[trigger] v@[i])@)) == question_row_args(
                (i + 1) as nat,
                model@.questions[i],
                exam_id,
            ),
{
    let mut rows: Vec<Vec<SqlArg>> = Vec::new();
    let mut q_num: usize = 0;
    while q_num < model.questions.len()
        invariant
            q_num <= model.questions@.len(),
            rows@.len() == q_num,
            forall|i: int|
                0 <= i < q_num ==> (#[trigger] question_row_args(
                    (i + 1) as nat,
                    model@.questions[i],
                    0,
                )) is Some,
            forall|i: int|
                0 <= i < q_num ==> Some(arg_views((#[trigger] rows@[i])@)) == question_row_args(
                    (i + 1) as nat,
                    model@.questions[i],
                    exam_id,
                ),
        decreases model.questions@.len() - q_num,
    {
        assert(model@.questions[q_num as int] == model.questions@[q_num as int]@);
        match question_args(q_num + 1, &model.questions[q_num], exam_id) {
            Some(args) => rows.push(args),
            None => {
                assert(question_row_args(
                    (q_num + 1) as nat,
                    model@.questions[q_num as int],
                    0,
                ) is None);
                return None;
            },
        }
        q_num = q_num + 1;
    }
    Some(rows)
}

/// The number that the store gave a new test, read from the row that the
/// statement which adds the test returns: a single whole number.
pub open spec fn returned_id(cells: Seq<CellView>) -> Option<i64> {
    if cells.len() == 1 {
        match cells[0] {
            CellView::Int(i) => Some(i),
            _ => None,
        }
    } else {
        None
    }
}

/// The rows to write for the questions of `model` as those of the test whose
/// number the row `cells` gives: one for each question, numbered from 1 in
/// the order of the questions. None where the row gives no number or a
/// question cannot be written.
pub fn question_rows_for(model: &TestModel, cells: &Vec<SqlCell>) -> (rows: Option<
    Vec<Vec<SqlArg>>,
>)
    ensures
        rows is Some == (returned_id(cell_views(cells@)) is Some && test_storable(model@)),
        rows matches Some(v) ==> v@.len() == model@.questions.len() && forall|i: int|
            0 <= i < v@.len() ==> Some(arg_views((#[trigger] v@[i])@)) == question_row_args(
                (i + 1) as nat,
                model@.questions[i],
                returned_id(cell_views(cells@))->0,
            ),
{
    if cells.len() != 1 {
        return None;
    }
    assert(cell_views(cells@)[0] == cells@[0]@);
    match &cells[0] {
        SqlCell::Int(i) => question_rows(model, *i),
        _ => None,
    }
}

/// Writes the test and its questions inside an open transaction.
fn insert_test(conn: &Connection, model: &TestModel, date: &String) -> (r: Result<(), StoreError>)
    requires
        test_storable(model@),
    ensures
        r matches Err(e) ==> e is Database,
{
    let test_t = exam_args(&model.title, date, "NOT_STARTED");
    let cells = match query_first(conn, INSERT_EXAM_RETURNING, &test_t, 1) {
        Ok(cells) => cells,
        Err(e) => {
            return Err(store_error(&e));
        },
    };
    let rows = match question_rows_for(model, &cells) {
        Some(rows) => rows,
        None => {
            return Err(
                StoreError::Database("the store gave the new test no number".to_owned()),
            );
        },
    };
    let mut i: usize = 0;
    while i < rows.len()
        invariant
            i <= rows@.len(),
        decreases rows@.len() - i,
    {
        match execute(conn, INSERT_QUESTION, &rows[i]) {
            Ok(_) => {},
            Err(e) => {
                return Err(store_error(&e));
            },
        }
        i = i + 1;
    }
    Ok(())
}

/// Whether `r` is an outcome of storing the test `t` at the reading `secs`
/// of the wall clock: the test is refused as malformed where one of its
/// questions cannot be written, and only there; and a test that can be
/// written is refused for the clock where no date can be told of the
/// reading, and only there.
pub open spec fn new_test_saved_at(t: TestView, secs: u64, r: Result<(), StoreError>) -> bool {
    &&& r == Err::<(), StoreError>(StoreError::Malformed) <==> !test_storable(t)
    &&& r == Err::<(), StoreError>(StoreError::Clock) <==> test_storable(t) && date_at(secs) is None
}

/// Adds `model` as a test that is not started, dated today, with its
/// questions numbered from 1 in their order: whatever the wall clock shows,
/// the call is an outcome of storing the test at that reading.
pub fn save_new_test(conn: &Connection, model: &TestModel) -> (r: Result<(), StoreError>)
    ensures
        r == Err::<(), StoreError>(StoreError::Malformed) <==> !test_storable(model@),
        exists|secs: u64| new_test_saved_at(model@, secs, r),
{
    let secs = unix_seconds();
    let r = save_new_test_on(conn, model, secs);
    assert(new_test_saved_at(model@, secs, r));
    r
}

/// Adds `model` as a test that is not started, dated with the day of the
/// reading `secs` of the wall clock. A test with a question that does not
/// have four choices is refused before anything else; one that can be
/// written is refused for the clock where no date can be told of the
/// reading; every other failure is one of the database.
pub fn save_new_test_on(conn: &Connection, model: &TestModel, secs: u64) -> (r: Result<
    (),
    StoreError,
>)
    ensures
        new_test_saved_at(model@, secs, r),
{
    if question_rows(model, 0).is_none() {
        return Err(StoreError::Malformed);
    }
    match date_today(secs) {
        Some(date) => save_new_test_at(conn, model, &date),
        None => Err(StoreError::Clock),
    }
}

/// Adds `model` as a test that is not started, dated `date`, with its
/// questions numbered from 1 in their order. All of it is written in one
/// transaction, which is rolled back where the database refuses any part.
/// A test with a question that does not have four choices is refused before
/// anything is written; every other failure is one of the database.
pub fn save_new_test_at(conn: &Connection, model: &TestModel, date: &String) -> (r: Result<
    (),
    StoreError,
>)
    ensures
        r == Err::<(), StoreError>(StoreError::Malformed) <==> !test_storable(model@),
        r matches Err(e) ==> e is Malformed || e is Database,
{
    if question_rows(model, 0).is_none() {
        return Err(StoreError::Malformed);
    }
    let none: Vec<SqlArg> = Vec::new();
    match execute(conn, "BEGIN IMMEDIATE", &none) {
        Ok(_) => {},
        Err(e) => {
            return Err(store_error(&e));
        },
    }
    match insert_test(conn, model, date) {
        Ok(()) => {},
        Err(e) => {
            let _ = execute(conn, "ROLLBACK", &none);
            return Err(e);
        },
    }
    match execute(conn, "COMMIT", &none) {
        Ok(_) => Ok(()),
        Err(e) => {
            let _ = execute(conn, "ROLLBACK", &none);
            Err(store_error(&e))
        },
    }
}

/// Makes the three relations where they are missing. Fails where the
/// database does.
pub fn create_schema(conn: &Connection) -> (r: Result<(), StoreError>)
    ensures
        r matches Err(e) ==> e is Database,
{
    let none: Vec<SqlArg> = Vec::new();
    match execute(conn, CREATE_EXAM, &none) {
        Ok(_) => {},
        Err(e) => {
            return Err(store_error(&e));
        },
    }
    match execute(conn, CREATE_QUESTION, &none) {
        Ok(_) => {},
        Err(e) => {
            return Err(store_error(&e));
        },
    }
    match execute(conn, CREATE_RESULT, &none) {
        Ok(_) => Ok(()),
        Err(e) => Err(store_error(&e)),
    }
}

fn seed_test(conn: &Connection, name: &str, date: &str, status: &str) {
    let mut args: Vec<SqlArg> = Vec::new();
    args.push(SqlArg::Text(name.to_owned()));
    args.push(SqlArg::Text(date.to_owned()));
    args.push(SqlArg::Text(status.to_owned()));
    let _ = execute(conn, INSERT_EXAM, &args);
}

/// Adds the sample tests.
pub fn populate_tests(conn: &Connection) {
    seed_test(conn, "English idioms with a twist", "2025-03-07", "NOT_STARTED");
    seed_test(conn, "Verbs and stuff", "2025-02-28", "NOT_STARTED");
    seed_test(conn, "Week exam #2", "2025-02-27", "NOT_STARTED");
    seed_test(conn, "Week exam #1", "2025-01-03", "FINISHED");
    seed_test(conn, "Adjectives", "2025-01-03", "FINISHED");
    seed_test(conn, "Reading between the lines", "2025-01-08", "FINISHED");
    seed_test(conn, "Nouns or nuns", "2025-01-12", "FINISHED");
}

fn seed_question(
    conn: &Connection,
    number: i64,
    text: &str,
    a1: &str,
    a2: &str,
    a3: &str,
    a4: &str,
    correct: i64,
    examid: i64,
) {
    let mut args: Vec<SqlArg> = Vec::new();
    args.push(SqlArg::Int(number));
    args.push(SqlArg::Text(text.to_owned()));
    args.push(SqlArg::Text(a1.to_owned()));
    args.push(SqlArg::Text(a2.to_owned()));
    args.push(SqlArg::Text(a3.to_owned()));
    args.push(SqlArg::Text(a4.to_owned()));
    args.push(SqlArg::Int(correct));
    args.push(SqlArg::Int(examid));
    let _ = execute(conn, INSERT_QUESTION, &args);
}

/// Adds the questions of the sample tests.
pub fn populate_questions(conn: &Connection) {
    seed_question(
        conn,
        1,
        "Lets imagine that you see your brother for the first time today and it is 1 pm. How do you greet him?",
        "Good evening",
        "Good morning",
        "Hi, do we know each other?",
        "Yo bro, shouldn't you be in Buenos Aires right now?",
        3,
        1,
    );
    seed_question(
        conn,
        2,
        "This is the ... I am telling you this!",
        "current time",
        "previous time",
        "last time",
        "any timme",
        2,
        1,
    );
    seed_question(
        conn,
        1,
        "How would you tell somebody to go and do something?",
        "Could you just move, please?",
        "Just do it!",
        "Move your behind and get the shit done",
        "Just stay there and let things happen on their own",
        2,
        2,
    );
    seed_question(
        conn,
        2,
        "Stop ... at the world through the pink glasses.",
        "seeing",
        "looking",
        "viewing",
        "he see",
        1,
        2,
    );
    seed_question(
        conn,
        3,
        "Why do policemen walk in pairs?",
        "To arrest you twice as fast for hate speech",
        "Who could possibly know that",
        "Two is better than one",
        "One can read and the other can write",
        3,
        2,
    );
    seed_question(
        conn,
        1,
        "I wish you ... so dumm.",
        "is",
        "weren't",
        "was not",
        "were",
        1,
        3,
    );
    seed_question(
        conn,
        2,
        "What is the best way to describe the following situation: A woman in her late twentees or early thirties is walking down the street early mornig. Her hair are a mess, her make up is well, like her hair and she is holding her high heels in one hand while covering her face with the other.",
        "Early morning jogging",
        "Stroll through the park",
        "Walk of shame",
        "My kind of a woman",
        2,
        3,
    );
    seed_question(
        conn,
        3,
        "What could be your reaction to learning the correct answer to the previouis question? Pick the one that fits best.",
        "I should have known that!",
        "Really? I had no idea!",
        "So it was not my kind of a woman?",
        "One of the above",
        3,
        3,
    );
    seed_question(
        conn,
        4,
        "What is the proper way to say: '3 * 3' 'is six' or 'are six'?",
        "is six",
        "are six",
        "is nine",
        "math? oh, come on!",
        2,
        3,
    );
    seed_question(
        conn,
        1,
        "Are you in the right class?",
        "Yes",
        "No",
        "I have no idea",
        "Maybe",
        0,
        4,
    );
    seed_question(
        conn,
        1,
        "Less is more. True or false?",
        "True",
        "False",
        "I have no idea",
        "It depends",
        3,
        5,
    );
    seed_question(
        conn,
        2,
        "The grass is always ... on the other side",
        "bigger",
        "greener",
        "bushier",
        "green",
        1,
        5,
    );
    seed_question(
        conn,
        3,
        "If he is younger than me then I am ... than him",
        "as young as",
        "younger",
        "old",
        "older",
        3,
        5,
    );
    seed_question(
        conn,
        1,
        "A deep dive into something means",
        "to swim underwater really deep",
        "to jump into water from a high place",
        "to focus someones attention on one topic in order to understand it very well",
        "all of the above",
        2,
        6,
    );
    seed_question(
        conn,
        2,
        "Which number cannot be represented by the phrase: 'two four two zero'",
        "2440",
        "4420",
        "4400",
        "2420",
        0,
        6,
    );
    seed_question(
        conn,
        1,
        "What is a truck?",
        "a car but not a car, a bigger car",
        "lower part of the tree",
        "a main branch in git repository",
        "a vihickle",
        0,
        7,
    );
    seed_question(
        conn,
        2,
        "Swims on water and donald is the name",
        "dack",
        "dak",
        "duck",
        "chicken",
        2,
        7,
    );
}

fn seed_answer(conn: &Connection, examid: i64, qnumber: i64, given: i64, time: i64, date: i64) {
    let mut args: Vec<SqlArg> = Vec::new();
    args.push(SqlArg::Int(examid));
    args.push(SqlArg::Int(qnumber));
    args.push(SqlArg::Int(given));
    args.push(SqlArg::Int(time));
    args.push(SqlArg::Int(date));
    let _ = execute(conn, INSERT_RESULT, &args);
}

/// Adds the results of the sample tests that are finished.
pub fn populate_answers(conn: &Connection) {
    seed_answer(conn, 4, 1, 1, 56, 10001);
    seed_answer(conn, 5, 1, 2, 66, 10011);
    seed_answer(conn, 5, 2, 1, 120, 10011);
    seed_answer(conn, 5, 3, 2, 61, 10011);
    seed_answer(conn, 6, 1, 2, 9, 10101);
    seed_answer(conn, 6, 2, 0, 12, 10101);
    seed_answer(conn, 7, 1, 3, 100, 11001);
    seed_answer(conn, 7, 2, 0, 23, 11001);
}

/// What comes back of the value `a` when it is written to a column of its
/// own kind and read again.
pub open spec fn read_back(a: ArgView) -> CellView {
    match a {
        ArgView::Int(i) => CellView::Int(i),
        ArgView::Text(s) => CellView::Text(s),
    }
}

/// The columns that the query for questions reads of a row that was written
/// with the arguments `args`: the text, the four choices and the position of
/// the right one.
pub open spec fn question_columns(args: Seq<ArgView>) -> Seq<CellView> {
    Seq::new(6, |i: int| read_back(args[i + 1]))
}

/// The row of a question, read back as it was written, holds the question
/// again: the same text, the same choices in the same order, and the same
/// position of the right one.
pub proof fn lemma_question_round_trip(number: nat, q: QuestionView, exam_id: i64)
    requires
        question_row_args(number, q, exam_id) is Some,
    ensures
        QuestionE::decoded(question_columns(question_row_args(number, q, exam_id)->0)) is Some,
        QuestionE::decoded(
            question_columns(question_row_args(number, q, exam_id)->0),
        )->0.model() == q,
{
    let row = QuestionE::decoded(question_columns(question_row_args(number, q, exam_id)->0))->0;
    assert(row.model().answers =~= q.answers);
}

proof fn lemma_kept_all(t: TestView, exam_id: i64, rows: Seq<RowResult>, n: nat)
    requires
        test_storable(t),
        n <= t.questions.len(),
        rows.len() == n,
        forall|i: int|
            0 <= i < n ==> row_cells(#[trigger] rows[i]) == Some(
                question_columns(question_row_args((i + 1) as nat, t.questions[i], exam_id)->0),
            ),
    ensures
        question_models(kept::<QuestionE>(rows)) == t.questions.take(n as int),
    decreases n,
{
    if n == 0 {
        assert(question_models(kept::<QuestionE>(rows)) =~= t.questions.take(0));
    } else {
        let last = (n - 1) as int;
        assert(question_row_args((last + 1) as nat, t.questions[last], 0) is Some);
        lemma_kept_all(t, exam_id, rows.drop_last(), (n - 1) as nat);
        lemma_question_round_trip((last + 1) as nat, t.questions[last], exam_id);
        assert(rows.last() == rows[last]);
        let cols = question_columns(
            question_row_args((last + 1) as nat, t.questions[last], exam_id)->0,
        );
        assert(row_cells(rows.last()) == Some(cols));
        let row = QuestionE::decoded(cols)->0;
        let rest = kept::<QuestionE>(rows.drop_last());
        assert(kept::<QuestionE>(rows) == rest.push(row));
        assert(question_models(rest.push(row)) =~= question_models(rest).push(row.model()));
        assert(t.questions.take(n as int) =~= t.questions.take(n - 1).push(t.questions[last]));
    }
}

/// A test that is written and read back as it was written comes back with
/// its questions in their order, each with its text, its choices and the
/// position of the right one; its title is the title it was written with,
/// and its identifier is the number it got.
pub proof fn lemma_test_round_trip(
    t: TestView,
    id: usize,
    date: Seq<char>,
    exam: Seq<CellView>,
    rows: Seq<RowResult>,
)
    requires
        test_storable(t),
        id <= i64::MAX,
        exam == seq![CellView::Int(id as i64), CellView::Text(t.title), CellView::Text(date)],
        rows.len() == t.questions.len(),
        forall|i: int|
            0 <= i < rows.len() ==> row_cells(#[trigger] rows[i]) == Some(
                question_columns(
                    question_row_args((i + 1) as nat, t.questions[i], id as i64)->0,
                ),
            ),
    ensures
        test_of_rows(exam, rows) == Some(
            TestView {
                id: decimal(id as nat),
                title: t.title,
                questions: t.questions,
            },
        ),
{
    lemma_kept_all(t, id as i64, rows, rows.len());
    assert(t.questions.take(t.questions.len() as int) =~= t.questions);
}

/// The columns that the query for the latest result reads of a row of the
/// result that was written with the arguments `answer`, joined with the row
/// of its question that was written with the arguments `question`: the
/// choice, the seconds, and the columns of the question.
pub open spec fn answer_columns(answer: Seq<ArgView>, question: Seq<ArgView>) -> Seq<CellView> {
    seq![read_back(answer[2]), read_back(answer[3])] + question_columns(question)
}

/// The row of an answer, read back as it was written and joined with its
/// question, holds the record again: the same question and choices, the same
/// choice, the same verdict and the same seconds. This holds of a record of a
/// question with four choices whose right choice is one of them, where the
/// choice, if one was made, is one of the four as well.
pub proof fn lemma_answer_round_trip(
    id: Seq<char>,
    number: nat,
    a: AnswerView,
    date: u64,
    q: QuestionView,
    exam_id: i64,
)
    requires
        answer_row_args(id, number, a, date) is Some,
        question_row_args(number, q, exam_id) is Some,
        a.question == q.question,
        a.answers == q.answers,
        a.correct == q.correct,
        a.is_correct == q.is_correct(a.given),
        q.correct < 4,
        a.given matches Some(g) ==> g < 4,
        a.time <= usize::MAX,
    ensures
        AnswerE::decoded(
            answer_columns(
                answer_row_args(id, number, a, date)->0,
                question_row_args(number, q, exam_id)->0,
            ),
        ) is Some,
        AnswerE::decoded(
            answer_columns(
                answer_row_args(id, number, a, date)->0,
                question_row_args(number, q, exam_id)->0,
            ),
        )->0.model() == a,
{
    let written = question_row_args(number, q, exam_id)->0;
    let cells = answer_columns(answer_row_args(id, number, a, date)->0, written);
    assert(cells.subrange(2, 8) =~= question_columns(written));
    lemma_question_round_trip(number, q, exam_id);
    let row = AnswerE::decoded(cells)->0;
    assert(row.model().answers =~= a.answers);
}

/// Whether the record `a` of the question `q` can be read back as it was
/// written: it is a snapshot of `q` with the verdict on its choice, the right
/// choice of `q` and the choice that was made, if any, are among the four,
/// and the seconds fit the numbers of this machine.
pub open spec fn reads_back(a: AnswerView, q: QuestionView) -> bool {
    &&& crate::screens::runner::records(a, q)
    &&& q.correct < 4
    &&& a.given matches Some(g) ==> g < 4
    &&& a.time <= usize::MAX
}

proof fn lemma_kept_answers(
    t: TestView,
    r: ResultView,
    exam_id: i64,
    date: u64,
    rows: Seq<RowResult>,
    n: nat,
)
    requires
        test_storable(t),
        result_storable(r, date),
        n <= r.answers.len(),
        r.answers.len() == t.questions.len(),
        forall|i: int| 0 <= i < r.answers.len() ==> reads_back(#[trigger] r.answers[i], t.questions[i]),
        rows.len() == n,
        forall|i: int|
            0 <= i < n ==> row_cells(#[trigger] rows[i]) == Some(
                answer_columns(
                    answer_row_args(r.id, (i + 1) as nat, r.answers[i], date)->0,
                    question_row_args((i + 1) as nat, t.questions[i], exam_id)->0,
                ),
            ),
    ensures
        answer_models(kept::<AnswerE>(rows)) == r.answers.take(n as int),
    decreases n,
{
    if n == 0 {
        assert(answer_models(kept::<AnswerE>(rows)) =~= r.answers.take(0));
    } else {
        let last = (n - 1) as int;
        assert(question_row_args((last + 1) as nat, t.questions[last], 0) is Some);
        assert(answer_row_args(r.id, (last + 1) as nat, r.answers[last], date) is Some);
        assert(reads_back(r.answers[last], t.questions[last]));
        lemma_kept_answers(t, r, exam_id, date, rows.drop_last(), (n - 1) as nat);
        lemma_answer_round_trip(
            r.id,
            (last + 1) as nat,
            r.answers[last],
            date,
            t.questions[last],
            exam_id,
        );
        assert(rows.last() == rows[last]);
        let cols = answer_columns(
            answer_row_args(r.id, (last + 1) as nat, r.answers[last], date)->0,
            question_row_args((last + 1) as nat, t.questions[last], exam_id)->0,
        );
        assert(row_cells(rows.last()) == Some(cols));
        let row = AnswerE::decoded(cols)->0;
        let rest = kept::<AnswerE>(rows.drop_last());
        assert(kept::<AnswerE>(rows) == rest.push(row));
        assert(answer_models(rest.push(row)) =~= answer_models(rest).push(row.model()));
        assert(r.answers.take(n as int) =~= r.answers.take(n - 1).push(r.answers[last]));
    }
}

/// The result of a completed run that is written and read back as it was
/// written, each of its rows joined with the row of its question, comes back
/// with its records in their order, each with its question, its choices, the
/// choice that was made, the verdict and the seconds. Its title is that of
/// the test, its identifier the number of the test, and its total time the
/// sum of the seconds of its records.
pub proof fn lemma_result_round_trip(
    t: TestView,
    r: ResultView,
    id: usize,
    day: Seq<char>,
    date: u64,
    exam: Seq<CellView>,
    rows: Seq<RowResult>,
)
    requires
        test_storable(t),
        result_storable(r, date),
        id <= i64::MAX,
        exam == seq![CellView::Int(id as i64), CellView::Text(t.title), CellView::Text(day)],
        r.answers.len() == t.questions.len(),
        forall|i: int| 0 <= i < r.answers.len() ==> reads_back(#[trigger] r.answers[i], t.questions[i]),
        rows.len() == r.answers.len(),
        forall|i: int|
            0 <= i < rows.len() ==> row_cells(#[trigger] rows[i]) == Some(
                answer_columns(
                    answer_row_args(r.id, (i + 1) as nat, r.answers[i], date)->0,
                    question_row_args((i + 1) as nat, t.questions[i], id as i64)->0,
                ),
            ),
    ensures
        result_of_rows(exam, rows) == Some(
            ResultView {
                id: decimal(id as nat),
                title: t.title,
                answers: r.answers,
                total_time: capped(total_seconds(r.answers)),
            },
        ),
{
    lemma_kept_answers(t, r, id as i64, date, rows, rows.len());
    assert(r.answers.take(r.answers.len() as int) =~= r.answers);
}

} // verus!
