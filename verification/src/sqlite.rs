//! The SQLite side of the store: the table `objects` behind a
//! `rusqlite::Connection`, and the statements that the store runs on it.
//!
//! Nothing in this file is proved. Each item says what is taken on trust.

use vstd::prelude::*;
use rusqlite::Connection;
use crate::records::no_records;

verus! {

/// `rusqlite::Connection`, carried as an opaque value.
#[verifier::external_type_specification]
#[verifier::external_body]
pub struct ExConnection(rusqlite::Connection);

/// `rusqlite::Error`, carried as an opaque value.
#[verifier::external_type_specification]
#[verifier::external_body]
pub struct ExError(rusqlite::Error);

/// The rows of the table `objects` of the database behind `conn`, as a map
/// from `org_id` to `json_object`; empty while the table does not exist.
/// The column `org_id` is the primary key, so a key has one row at most.
pub uninterp spec fn table_rows(conn: rusqlite::Connection) -> Map<Seq<char>, Seq<char>>;

/// Whether the database behind `conn` has no table `objects` but the one
/// that [`create_table`] makes. What is trusted of the statements below is
/// trusted of such a database only.
pub uninterp spec fn schema_is_ours(conn: rusqlite::Connection) -> bool;

/// Whether the database behind `conn` has the table `objects`.
pub uninterp spec fn has_table(conn: rusqlite::Connection) -> bool;

/// `rusqlite::Connection::open_in_memory`: a connection to a new, private
/// in-memory database. Trusted: a database that was just made has no table
/// and so no row.
#[verifier::external_body]
pub(crate) fn open_in_memory() -> (r: Result<Connection, rusqlite::Error>)
    ensures
        r matches Ok(conn) ==> schema_is_ours(conn) && table_rows(conn) == no_records(),
{
    Connection::open_in_memory()
}

/// `rusqlite::Connection::execute_batch` on `CREATE TABLE IF NOT EXISTS
/// objects`. Trusted: the statement makes an empty table where there was
/// none and leaves an existing table alone. So the rows are the same whether
/// it succeeds or fails, after success the table is there, and a failure
/// leaves it there or missing, as it was.
#[verifier::external_body]
pub(crate) fn create_table(conn: &mut Connection) -> (r: Result<(), rusqlite::Error>)
    requires
        schema_is_ours(*old(conn)),
    ensures
        schema_is_ours(*final(conn)),
        table_rows(*final(conn)) == table_rows(*old(conn)),
        r is Ok ==> has_table(*final(conn)),
        r is Err ==> has_table(*final(conn)) == has_table(*old(conn)),
{
    conn.execute_batch(
        "CREATE TABLE IF NOT EXISTS objects (
            org_id TEXT PRIMARY KEY,
            json_object TEXT NOT NULL
        )",
    )
}

/// `rusqlite::Connection::query_row` on a `SELECT` of the document of one
/// organization. `QueryReturnedNoRows` is the crate's way to say that no row
/// matched; it is handed on as `Ok(None)`. Trusted: the text that comes back
/// is the `json_object` of the row whose `org_id` equals `key`, and no row
/// comes back exactly when the table has none for `key`.
#[verifier::external_body]
pub(crate) fn select_object(conn: &Connection, key: &str) -> (r: Result<Option<String>, rusqlite::Error>)
    requires
        schema_is_ours(*conn),
    ensures
        r matches Ok(Some(value)) ==> table_rows(*conn).contains_key(key@) && table_rows(*conn)[key@] == value@,
        r matches Ok(None) ==> !table_rows(*conn).contains_key(key@),
{
    match conn.query_row(
        "SELECT json_object FROM objects WHERE org_id = ?1",
        (key,),
        |row| row.get::<_, String>(0),
    ) {
        Ok(value) => Ok(Some(value)),
        Err(rusqlite::Error::QueryReturnedNoRows) => Ok(None),
        Err(e) => Err(e),
    }
}

/// `rusqlite::Connection::execute` on an `INSERT` of one row. Trusted: the
/// primary key makes SQLite refuse a second row for a key, so the statement
/// succeeds only where the key had no row; it then adds exactly that row and
/// reports one change. A statement that fails leaves the table as it was.
/// An insert neither makes nor drops the table.
#[verifier::external_body]
pub(crate) fn insert_object(conn: &mut Connection, key: &str, value: &str) -> (r: Result<usize, rusqlite::Error>)
    requires
        schema_is_ours(*old(conn)),
    ensures
        schema_is_ours(*final(conn)),
        has_table(*final(conn)) == has_table(*old(conn)),
        r matches Ok(n) ==> n == 1 && !table_rows(*old(conn)).contains_key(key@)
            && table_rows(*final(conn)) == table_rows(*old(conn)).insert(key@, value@),
        r is Err ==> table_rows(*final(conn)) == table_rows(*old(conn)),
{
    conn.execute(
        "INSERT INTO objects (org_id, json_object) VALUES (?1, ?2)",
        (key, value),
    )
}

} // verus!
