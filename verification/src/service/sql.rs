use vstd::prelude::*;

verus! {

/// `rusqlite::Connection`, a connection to a database, as an opaque value.
#[verifier::external_type_specification]
#[verifier::external_body]
pub struct ExConnection(rusqlite::Connection);

/// `rusqlite::Statement`, a compiled statement, as an opaque value.
#[verifier::external_type_specification]
#[verifier::external_body]
pub struct ExStatement<'conn>(rusqlite::Statement<'conn>);

/// `rusqlite::Row`, a row that a query returned, as an opaque value.
#[verifier::external_type_specification]
#[verifier::external_body]
pub struct ExRow<'stmt>(rusqlite::Row<'stmt>);

/// `rusqlite::Error`, an error of the database, as an opaque value.
#[verifier::external_type_specification]
#[verifier::external_body]
pub struct ExError(rusqlite::Error);

/// A value handed to a statement in place of one of its parameters.
#[derive(Clone, Debug, PartialEq, Eq)]
pub enum SqlArg {
    Int(i64),
    Text(String),
}

/// A value read from one column of a row.
#[derive(Clone, Debug, PartialEq, Eq)]
pub enum SqlCell {
    Null,
    Int(i64),
    Real,
    Text(String),
    Blob,
}

/// What an argument of a statement is.
pub enum ArgView {
    Int(i64),
    Text(Seq<char>),
}

impl View for SqlArg {
    type V = ArgView;

    open spec fn view(&self) -> ArgView {
        match *self {
            SqlArg::Int(i) => ArgView::Int(i),
            SqlArg::Text(s) => ArgView::Text(s@),
        }
    }
}

/// What the arguments `v` are, in order.
pub open spec fn arg_views(v: Seq<SqlArg>) -> Seq<ArgView> {
    Seq::new(v.len(), |i: int| v[i]@)
}

/// What a value read from a column is.
pub enum CellView {
    Null,
    Int(i64),
    Real,
    Text(Seq<char>),
    Blob,
}

impl View for SqlCell {
    type V = CellView;

    open spec fn view(&self) -> CellView {
        match *self {
            SqlCell::Null => CellView::Null,
            SqlCell::Int(i) => CellView::Int(i),
            SqlCell::Real => CellView::Real,
            SqlCell::Text(s) => CellView::Text(s@),
            SqlCell::Blob => CellView::Blob,
        }
    }
}

/// What the values `v` are, in order.
pub open spec fn cell_views(v: Seq<SqlCell>) -> Seq<CellView> {
    Seq::new(v.len(), |i: int| v[i]@)
}

/// The outcome of reading one row: its values, or the error of the database.
pub type RowResult = Result<Vec<SqlCell>, rusqlite::Error>;

/// The values of the row, where it was read.
pub open spec fn row_cells(row: RowResult) -> Option<Seq<CellView>> {
    match row {
        Ok(cells) => Some(cell_views(cells@)),
        Err(_) => None,
    }
}

/// A kind of record that is read from the rows of one query.
pub trait FromRow: Sized {
    /// What a record of this kind is.
    type Entity;

    /// What this record is.
    spec fn entity(&self) -> Self::Entity;

    /// The record that a row of the query holds, where it holds one.
    spec fn decoded(cells: Seq<CellView>) -> Option<Self::Entity>;

    /// Reads the record that a row of the query holds.
    fn from_row(cells: &Vec<SqlCell>) -> (r: Option<Self>)
        ensures
            r is Some == Self::decoded(cell_views(cells@)) is Some,
            r matches Some(e) ==> Self::decoded(cell_views(cells@)) == Some(e.entity()),
    ;
}

/// What the records `v` are, in order.
pub open spec fn entities<T: FromRow>(v: Seq<T>) -> Seq<T::Entity> {
    Seq::new(v.len(), |i: int| v[i].entity())
}

/// The records that the rows `rows` hold, in order: a row that was not read,
/// or that holds no record, is passed over.
pub open spec fn kept<T: FromRow>(rows: Seq<RowResult>) -> Seq<T::Entity>
    decreases rows.len(),
{
    if rows.len() == 0 {
        Seq::empty()
    } else {
        let rest = kept::<T>(rows.drop_last());
        match row_cells(rows.last()) {
            Some(cells) => match T::decoded(cells) {
                Some(t) => rest.push(t),
                None => rest,
            },
            None => rest,
        }
    }
}

/// Reads the records that the rows hold.
pub fn collect_rows<T: FromRow>(rows: &Vec<RowResult>) -> (out: Vec<T>)
    ensures
        entities(out@) == kept::<T>(rows@),
{
    let mut out: Vec<T> = Vec::new();
    let mut i: usize = 0;
    assert(rows@.take(0) =~= Seq::<RowResult>::empty());
    assert(entities(out@) =~= kept::<T>(rows@.take(0)));
    while i < rows.len()
        invariant
            i <= rows@.len(),
            entities(out@) == kept::<T>(rows@.take(i as int)),
        decreases rows@.len() - i,
    {
        proof {
            assert(rows@.take(i + 1).drop_last() =~= rows@.take(i as int));
            assert(rows@.take(i + 1).last() == rows@[i as int]);
        }
        let ghost before = entities(out@);
        match &rows[i] {
            Ok(cells) => {
                match T::from_row(cells) {
                    Some(e) => {
                        out.push(e);
                        assert(entities(out@) =~= before.push(e.entity()));
                    },
                    None => {},
                }
            },
            Err(_) => {},
        }
        i = i + 1;
    }
    assert(rows@.take(rows@.len() as int) =~= rows@);
    out
}

/// The text that a value holds, where it is a text.
pub open spec fn text_of(c: CellView) -> Option<Seq<char>> {
    match c {
        CellView::Text(s) => Some(s),
        _ => None,
    }
}

/// The number that a value holds, where it is a whole number that a `usize`
/// can hold.
pub open spec fn index_of(c: CellView) -> Option<usize> {
    match c {
        CellView::Int(i) => if 0 <= i <= usize::MAX {
            Some(i as usize)
        } else {
            None
        },
        _ => None,
    }
}

/// Reads a text out of a value.
pub fn cell_text(c: &SqlCell) -> (r: Option<String>)
    ensures
        r is Some == text_of(c@) is Some,
        r matches Some(s) ==> s@ == text_of(c@)->0,
{
    match c {
        SqlCell::Text(s) => Some(s.clone()),
        _ => None,
    }
}

/// Reads a number out of a value.
pub fn cell_index(c: &SqlCell) -> (r: Option<usize>)
    ensures
        r == index_of(c@),
{
    match c {
        SqlCell::Int(i) => {
            if *i >= 0 && (*i as u64) <= usize::MAX as u64 {
                Some(*i as usize)
            } else {
                None
            }
        },
        _ => None,
    }
}

/// What went wrong in the store.
#[derive(Clone, Debug, PartialEq, Eq)]
pub enum StoreError {
    /// The database refused an operation; the text is its own account of it.
    Database(String),
    /// A test that does not give each question its four choices cannot be
    /// stored.
    Malformed,
    /// The wall clock shows a time of which no date can be told.
    Clock,
}

impl StoreError {
    /// The account of the error.
    pub open spec fn text(self) -> Seq<char> {
        match self {
            StoreError::Database(m) => m@,
            StoreError::Malformed => "a question without four choices"@,
            StoreError::Clock => "a clock without a date"@,
        }
    }

    /// The account of the error for a log line.
    pub fn message(&self) -> (s: String)
        ensures
            s@ == self.text(),
    {
        match self {
            StoreError::Database(m) => m.clone(),
            StoreError::Malformed => "a question without four choices".to_owned(),
            StoreError::Clock => "a clock without a date".to_owned(),
        }
    }
}

/// Calls `rusqlite::Connection::open_in_memory`, which opens a new database
/// in memory, or fails.
#[verifier::external_body]
pub(crate) fn open_in_memory() -> Result<rusqlite::Connection, rusqlite::Error> {
    rusqlite::Connection::open_in_memory()
}

/// Calls `rusqlite::Connection::execute`, which runs one statement that
/// returns no rows and gives the number of rows it changed, or fails.
#[verifier::external_body]
pub(crate) fn execute(conn: &rusqlite::Connection, sql: &str, args: &Vec<SqlArg>) -> Result<
    usize,
    rusqlite::Error,
> {
    let values = args.iter().map(|a| match a {
        SqlArg::Int(i) => rusqlite::types::Value::Integer(*i),
        SqlArg::Text(s) => rusqlite::types::Value::Text(s.clone()),
    });
    conn.execute(sql, rusqlite::params_from_iter(values))
}

/// Calls `rusqlite::Connection::prepare`, which compiles one statement, or
/// fails.
#[verifier::external_body]
pub(crate) fn prepare<'a>(conn: &'a rusqlite::Connection, sql: &str) -> Result<
    rusqlite::Statement<'a>,
    rusqlite::Error,
> {
    conn.prepare(sql)
}

/// Calls `rusqlite::Statement::execute`, which runs a compiled statement
/// that returns no rows and gives the number of rows it changed, or fails.
#[verifier::external_body]
pub(crate) fn statement_execute(stmt: &mut rusqlite::Statement<'_>, args: &Vec<SqlArg>) -> Result<
    usize,
    rusqlite::Error,
> {
    let values = args.iter().map(|a| match a {
        SqlArg::Int(i) => rusqlite::types::Value::Integer(*i),
        SqlArg::Text(s) => rusqlite::types::Value::Text(s.clone()),
    });
    stmt.execute(rusqlite::params_from_iter(values))
}

/// Calls `rusqlite::Row::get` for a value of any type, which fails where the
/// row has no column `idx`.
#[verifier::external_body]
pub(crate) fn row_get(row: &rusqlite::Row<'_>, idx: usize) -> Result<SqlCell, rusqlite::Error> {
    Ok(
        match row.get::<usize, rusqlite::types::Value>(idx)? {
            rusqlite::types::Value::Null => SqlCell::Null,
            rusqlite::types::Value::Integer(i) => SqlCell::Int(i),
            rusqlite::types::Value::Real(_) => SqlCell::Real,
            rusqlite::types::Value::Text(s) => SqlCell::Text(s),
            rusqlite::types::Value::Blob(_) => SqlCell::Blob,
        },
    )
}

/// Reads the first `width` columns of a row, in order; fails where one of
/// them cannot be read. With no column asked for, nothing is read and
/// nothing can fail.
pub fn read_cells(row: &rusqlite::Row<'_>, width: usize) -> (r: Result<
    Vec<SqlCell>,
    rusqlite::Error,
>)
    ensures
        r matches Ok(cells) ==> cells@.len() == width,
        width == 0 ==> r is Ok,
{
    let mut cells: Vec<SqlCell> = Vec::new();
    let mut i: usize = 0;
    while i < width
        invariant
            i <= width,
            cells@.len() == i,
        decreases width - i,
    {
        match row_get(row, i) {
            Ok(cell) => cells.push(cell),
            Err(e) => {
                return Err(e);
            },
        }
        i = i + 1;
    }
    Ok(cells)
}

/// Whether each of `rows` that was read holds `width` values.
pub open spec fn rows_of_width(rows: Seq<RowResult>, width: usize) -> bool {
    forall|i: int|
        0 <= i < rows.len() ==> ((#[trigger] rows[i]) matches Ok(cells) ==> cells@.len() == width)
}

/// Calls `rusqlite::Statement::query_map`, which runs a compiled query and
/// hands each row it returns to [`read_cells`]; the outcomes come in the
/// order of the rows. The call itself fails where the arguments cannot be
/// bound. Each outcome is what [`read_cells`] gave for a row or an error of
/// the database, so a row that was read holds `width` values.
#[verifier::external_body]
pub(crate) fn statement_query_map(
    stmt: &mut rusqlite::Statement<'_>,
    args: &Vec<SqlArg>,
    width: usize,
) -> (r: Result<Vec<Result<Vec<SqlCell>, rusqlite::Error>>, rusqlite::Error>)
    ensures
        r matches Ok(rows) ==> rows_of_width(rows@, width),
{
    let values = args.iter().map(|a| match a {
        SqlArg::Int(i) => rusqlite::types::Value::Integer(*i),
        SqlArg::Text(s) => rusqlite::types::Value::Text(s.clone()),
    });
    let rows = stmt.query_map(rusqlite::params_from_iter(values), |row| read_cells(row, width))?;
    Ok(rows.collect())
}

/// Runs the query `sql` with the arguments `args` and reads `width` columns
/// of each row: a row that was read holds `width` values.
pub(crate) fn query_all(conn: &rusqlite::Connection, sql: &str, args: &Vec<SqlArg>, width: usize) -> (r: Result<
    Vec<RowResult>,
    rusqlite::Error,
>)
    ensures
        r matches Ok(rows) ==> rows_of_width(rows@, width),
{
    match prepare(conn, sql) {
        Ok(mut stmt) => statement_query_map(&mut stmt, args, width),
        Err(e) => Err(e),
    }
}

/// Runs the query `sql` with the arguments `args` and reads `width` columns
/// of the first row, which then holds `width` values; fails where there is
/// no row.
pub(crate) fn query_first(conn: &rusqlite::Connection, sql: &str, args: &Vec<SqlArg>, width: usize) -> (r: RowResult)
    ensures
        r matches Ok(cells) ==> cells@.len() == width,
{
    match prepare(conn, sql) {
        Ok(mut stmt) => statement_query_row(&mut stmt, args, width),
        Err(e) => Err(e),
    }
}

/// Calls `rusqlite::Statement::query_row`, which runs a compiled query and
/// hands the first row it returns to [`read_cells`]; it fails where the query
/// returns no row. What comes back is what [`read_cells`] gave for that row
/// or an error of the database, so a row that was read holds `width` values.
#[verifier::external_body]
pub(crate) fn statement_query_row(
    stmt: &mut rusqlite::Statement<'_>,
    args: &Vec<SqlArg>,
    width: usize,
) -> (r: Result<Vec<SqlCell>, rusqlite::Error>)
    ensures
        r matches Ok(cells) ==> cells@.len() == width,
{
    let values = args.iter().map(|a| match a {
        SqlArg::Int(i) => rusqlite::types::Value::Integer(*i),
        SqlArg::Text(s) => rusqlite::types::Value::Text(s.clone()),
    });
    stmt.query_row(rusqlite::params_from_iter(values), |row| read_cells(row, width))
}

/// Writes out what `rusqlite::Error` says of itself.
#[verifier::external_body]
pub(crate) fn error_text(e: &rusqlite::Error) -> String {
    format!("{}", e)
}

/// The error of the store that stands for an error of the database.
pub fn store_error(e: &rusqlite::Error) -> (r: StoreError)
    ensures
        r is Database,
{
    StoreError::Database(error_text(e))
}

} // verus!
