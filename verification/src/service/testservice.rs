use crate::models::test::{ResultModel, TestModel};
use crate::service::dbservice;
use crate::service::dbservice::{is_listing, is_stored_result, is_stored_test, pair_texts};
use crate::service::sql::{open_in_memory, store_error, StoreError};
use rusqlite::Connection;
use vstd::prelude::*;

verus! {

/// Opens a database in memory, makes the relations and adds the sample
/// tests. Fails where the database cannot be opened.
pub fn init_conn_and_populate() -> (r: Result<Connection, StoreError>)
    ensures
        r matches Err(e) ==> e is Database,
{
    match init_conn() {
        Ok(conn) => {
            let _ = dbservice::create_schema(&conn);
            dbservice::populate_tests(&conn);
            dbservice::populate_questions(&conn);
            dbservice::populate_answers(&conn);
            Ok(conn)
        },
        Err(e) => Err(e),
    }
}

/// Opens a database in memory. Fails where it cannot be opened.
pub fn init_conn() -> (r: Result<Connection, StoreError>)
    ensures
        r matches Err(e) ==> e is Database,
{
    match open_in_memory() {
        Ok(conn) => Ok(conn),
        Err(e) => Err(store_error(&e)),
    }
}

/// Lists the tests that are not started; none where the database fails.
pub fn get_to_do(conn: &Connection) -> (v: Vec<(String, String)>)
    ensures
        is_listing(pair_texts(v@)) || v@.len() == 0,
{
    match dbservice::get_by_status(conn, "NOT_STARTED") {
        Ok(rows) => rows,
        _ => Vec::new(),
    }
}

/// Lists the tests that are finished; none where the database fails.
pub fn get_finished(conn: &Connection) -> (v: Vec<(String, String)>)
    ensures
        is_listing(pair_texts(v@)) || v@.len() == 0,
{
    match dbservice::get_by_status(conn, "FINISHED") {
        Ok(rows) => rows,
        _ => Vec::new(),
    }
}

/// Looks up the test `id` with its questions; nothing where there is no such
/// test or the database fails.
pub fn get_test_by_id(conn: &Connection, id: String) -> (r: Option<TestModel>)
    ensures
        r matches Some(t) ==> is_stored_test(t@),
{
    dbservice::get_test_by_id(conn, id)
}

/// Looks up the latest result of the test `id`; nothing where there is no
/// such test or the database fails.
pub fn get_result_by_id(conn: &Connection, id: String) -> (r: Option<ResultModel>)
    ensures
        r matches Some(res) ==> is_stored_result(res@),
{
    dbservice::get_result_by_id(conn, id)
}

/// Marks the test `id` as finished. Fails where the database does.
pub fn set_finished(conn: &Connection, id: String) -> (r: Result<(), StoreError>)
    ensures
        r matches Err(e) ==> e is Database,
{
    dbservice::update_status(conn, id, "FINISHED")
}

/// Adds the rows of `result` under the time the wall clock shows: whatever
/// that time is, the call is an outcome of storing the result at it.
pub fn save_result(conn: &Connection, result: ResultModel) -> (r: Result<(), StoreError>)
    ensures
        exists|date: u64| dbservice::saved_at(result@, date, r),
{
    dbservice::save_result(conn, result)
}

} // verus!
