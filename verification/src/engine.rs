//! The database engine, as far as the store calls it.
//!
//! Nothing here is proved. What a statement does to the database, and what
//! comes back, depends on the file that the connection was opened on and on
//! whoever else writes to it, so no contract in this module says anything
//! about a result: the callers are verified for every answer.

use crate::person::Person;
use crate::statement::{SqlValue, Statement};
use vstd::prelude::*;

verus! {

/// An open database, `rusqlite::Connection`. Opaque: the store only hands it on.
#[verifier::external_type_specification]
#[verifier::external_body]
pub struct ExConnection(rusqlite::Connection);

/// A failure of the engine, `rusqlite::Error`. Opaque: the two functions at
/// the end of this module read it.
#[verifier::external_type_specification]
#[verifier::external_body]
pub struct ExEngineError(rusqlite::Error);

/// Runs one statement through `rusqlite::Connection::execute`. Each bound
/// value is handed over as what it is, an integer as an integer and a text
/// as a text, in the statement's order. The result is what the call
/// returned: the number of rows that the engine says were changed, or its
/// error. Nothing is claimed of either.
#[verifier::external_body]
pub(crate) fn execute(conn: &rusqlite::Connection, statement: &Statement) -> (res: Result<
    usize,
    rusqlite::Error,
>) {
    let bound: Vec<&dyn rusqlite::ToSql> = statement.params.iter().map(
        |p| match p {
            SqlValue::Integer(i) => i as &dyn rusqlite::ToSql,
            SqlValue::Text(t) => t as &dyn rusqlite::ToSql,
        },
    ).collect();
    conn.execute(statement.sql.as_str(), bound.as_slice())
}

/// Prepares `sql` with `rusqlite::Connection::prepare`, runs it with
/// `Statement::query_map` and no bound values, and reads the first four
/// columns of each row with `Row::get` as a key and three texts. Hands back
/// the rows in the order in which the engine gave them or, where one of the
/// calls failed, the rows read before that and the error. Nothing is claimed
/// of either.
#[verifier::external_body]
pub(crate) fn query_people(conn: &rusqlite::Connection, sql: &str) -> (res: Result<
    Vec<Person>,
    (Vec<Person>, rusqlite::Error),
>) {
    let mut people: Vec<Person> = Vec::new();
    let mut prepared = conn.prepare(sql).map_err(|error| (Vec::new(), error))?;
    let rows = prepared.query_map(
        [],
        |row| Ok(Person { id: row.get(0)?, name: row.get(1)?, gender: row.get(2)?, city: row.get(3)? }),
    ).map_err(|error| (Vec::new(), error))?;
    for row in rows {
        match row {
            Ok(person) => people.push(person),
            Err(error) => return Err((people, error)),
        }
    }
    Ok(people)
}

/// Whether `rusqlite::Error::sqlite_error_code` gives
/// `ErrorCode::ConstraintViolation` for `error`: the engine refused a row
/// because the table's rules forbid it.
#[verifier::external_body]
pub(crate) fn is_constraint_violation(error: &rusqlite::Error) -> (res: bool) {
    error.sqlite_error_code() == Some(rusqlite::ErrorCode::ConstraintViolation)
}

/// The text that `rusqlite::Error`'s `Display` writes for `error`.
#[verifier::external_body]
pub(crate) fn error_text(error: &rusqlite::Error) -> (res: String) {
    error.to_string()
}

} // verus!
