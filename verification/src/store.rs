//! The operations on a table of people: create and drop the table, insert,
//! update, delete and read its rows.
//!
//! Each operation builds one statement, hands it to the engine and turns the
//! engine's answer into its own: the line that reports success, or the
//! failure. The engine decides whether a statement goes through; what is
//! proved here is which line is reported, which failures an operation can
//! end in, and that an update without any new value never reaches the
//! engine.

use crate::decimal::{integer_text, push_i32};
use crate::engine::{error_text, execute, is_constraint_violation, query_people};
use crate::person::Person;
use crate::report::{
    created_line, created_view, deleted_line, deleted_view, dropped_line, dropped_view,
    inserted_line, inserted_view, nothing_to_update_line, nothing_to_update_view, updated_line,
    updated_view,
};
use crate::statement::{
    create_table_statement, delete_statement, drop_table_statement, insert_statement,
    select_all_statement, update_statement, Statement,
};
use vstd::prelude::*;

verus! {

/// Why an operation failed.
#[derive(Debug, Clone, PartialEq, Eq)]
pub enum StoreError {
    /// The engine refused a row that would break a rule of the table, as a
    /// key that is there already does. The text is the engine's.
    Constraint(String),
    /// The engine failed in any other way: text that is no statement, a
    /// table that is not there, a database that cannot be written. The text
    /// is the engine's.
    Engine(String),
    /// A strict change found no row with this key.
    NotFound(i32),
}

/// What a change makes of a key that no row has.
#[derive(Debug, Clone, Copy, PartialEq, Eq, Structural)]
pub enum Strictness {
    /// Nothing: the change has gone through, with nothing to do.
    Lenient,
    /// A failure, `StoreError::NotFound`.
    Strict,
}

/// A read that the engine broke off.
#[derive(Debug, Clone, PartialEq, Eq)]
pub struct ReadFailure {
    /// The rows read before the failure, in the engine's order.
    pub read: Vec<Person>,
    /// Why the engine stopped.
    pub cause: StoreError,
}

/// The words for a failure: the engine's own where it has any.
pub open spec fn message_view(error: StoreError) -> Seq<char> {
    match error {
        StoreError::Constraint(text) => text@,
        StoreError::Engine(text) => text@,
        StoreError::NotFound(id) => "no row with id "@ + integer_text(id as int),
    }
}

impl StoreError {
    /// The words for this failure.
    pub fn message(&self) -> (text: String)
        ensures
            text@ == message_view(*self),
    {
        match self {
            StoreError::Constraint(text) => text.clone(),
            StoreError::Engine(text) => text.clone(),
            StoreError::NotFound(id) => {
                let mut text = String::from_str("no row with id ");
                push_i32(&mut text, *id);
                text
            },
        }
    }
}

/// The store's failure for a refusal of the engine, given whether the engine
/// calls it a constraint violation and its words for it.
pub fn failure_of(constraint: bool, text: String) -> (e: StoreError)
    ensures
        e == if constraint {
            StoreError::Constraint(text)
        } else {
            StoreError::Engine(text)
        },
{
    if constraint {
        StoreError::Constraint(text)
    } else {
        StoreError::Engine(text)
    }
}

/// What an operation reports once the engine has answered: `line` whatever
/// the count of changed rows; the failure where the engine gave one.
pub fn conclude(answer: Result<usize, StoreError>, line: String) -> (res: Result<
    String,
    StoreError,
>)
    ensures
        res == match answer {
            Ok(_) => Ok::<String, StoreError>(line),
            Err(e) => Err(e),
        },
{
    match answer {
        Ok(_) => Ok(line),
        Err(e) => Err(e),
    }
}

/// What a change to the row with key `id` reports once the engine has
/// answered. A count of zero says that no row has the key: a lenient change
/// reports `line` all the same, a strict one fails with `NotFound`. Any
/// other count reports `line`; a failure of the engine is handed on.
pub fn conclude_change(
    answer: Result<usize, StoreError>,
    strictness: Strictness,
    id: i32,
    line: String,
) -> (res: Result<String, StoreError>)
    ensures
        res == match answer {
            Ok(changed) => if changed == 0 && strictness == Strictness::Strict {
                Err::<String, StoreError>(StoreError::NotFound(id))
            } else {
                Ok(line)
            },
            Err(e) => Err(e),
        },
{
    match answer {
        Ok(changed) => if changed == 0 && strictness == Strictness::Strict {
            Err(StoreError::NotFound(id))
        } else {
            Ok(line)
        },
        Err(e) => Err(e),
    }
}

/// Hands `statement` to the engine and puts its failure, if any, in the
/// store's terms.
pub(crate) fn run(conn: &rusqlite::Connection, statement: &Statement) -> (res: Result<
    usize,
    StoreError,
>)
    ensures
        res matches Err(e) ==> !(e is NotFound),
{
    match execute(conn, statement) {
        Ok(changed) => Ok(changed),
        Err(error) => Err(failure_of(is_constraint_violation(&error), error_text(&error))),
    }
}

/// Creates the table `table_name` with the four columns of a person, unless
/// a table of that name is there already.
pub fn create_table(conn: &rusqlite::Connection, table_name: &str) -> (res: Result<
    String,
    StoreError,
>)
    ensures
        match res {
            Ok(line) => line@ == created_view(table_name@),
            Err(e) => !(e is NotFound),
        },
{
    let statement = create_table_statement(table_name);
    conclude(run(conn, &statement), created_line(table_name))
}

/// Drops the table `table_name` if it is there.
pub fn drop_table(conn: &rusqlite::Connection, table_name: &str) -> (res: Result<
    String,
    StoreError,
>)
    ensures
        match res {
            Ok(line) => line@ == dropped_view(table_name@),
            Err(e) => !(e is NotFound),
        },
{
    let statement = drop_table_statement(table_name);
    conclude(run(conn, &statement), dropped_line(table_name))
}

/// Reads every row of `table_name`, in the order in which the engine gives
/// them. Where the engine fails in the middle, the failure holds the rows
/// read before it.
pub fn read_exec(conn: &rusqlite::Connection, table_name: &str) -> (res: Result<
    Vec<Person>,
    ReadFailure,
>)
    ensures
        res matches Err(failure) ==> !(failure.cause is NotFound),
{
    let statement = select_all_statement(table_name);
    match query_people(conn, statement.sql.as_str()) {
        Ok(people) => Ok(people),
        Err((read, error)) => Err(
            ReadFailure {
                read,
                cause: failure_of(is_constraint_violation(&error), error_text(&error)),
            },
        ),
    }
}

/// Gives the row of `table_name` with key `id` the new values that are
/// given, and leaves its other columns alone. Without any new value nothing
/// is sent to the engine and the notice of that is the report, whatever the
/// strictness. What a key that no row has leads to is for `strictness` to
/// say.
pub fn update_exec_with(
    conn: &rusqlite::Connection,
    table_name: &str,
    id: i32,
    new_name: Option<&str>,
    new_gender: Option<&str>,
    new_city: Option<&str>,
    strictness: Strictness,
) -> (res: Result<String, StoreError>)
    ensures
        new_name is None && new_gender is None && new_city is None ==> (res matches Ok(line)
            && line@ == nothing_to_update_view(id as int)),
        new_name is Some || new_gender is Some || new_city is Some ==> (res matches Ok(line)
            ==> line@ == updated_view(id as int, table_name@)),
        res matches Err(StoreError::NotFound(key)) ==> key == id && strictness
            == Strictness::Strict,
{
    match update_statement(table_name, id, new_name, new_gender, new_city) {
        None => Ok(nothing_to_update_line(id)),
        Some(statement) => conclude_change(
            run(conn, &statement),
            strictness,
            id,
            updated_line(id, table_name),
        ),
    }
}

/// Gives the row of `table_name` with key `id` the new values that are
/// given, and leaves its other columns alone. Without any new value nothing
/// is sent to the engine and the notice of that is the report. A key that no
/// row has is no failure.
pub fn update_exec(
    conn: &rusqlite::Connection,
    table_name: &str,
    id: i32,
    new_name: Option<&str>,
    new_gender: Option<&str>,
    new_city: Option<&str>,
) -> (res: Result<String, StoreError>)
    ensures
        new_name is None && new_gender is None && new_city is None ==> (res matches Ok(line)
            && line@ == nothing_to_update_view(id as int)),
        new_name is Some || new_gender is Some || new_city is Some ==> (res matches Ok(line)
            ==> line@ == updated_view(id as int, table_name@)),
        res matches Err(e) ==> !(e is NotFound),
{
    update_exec_with(conn, table_name, id, new_name, new_gender, new_city, Strictness::Lenient)
}

/// Inserts one row into `table_name`. The engine refuses a key that is there
/// already.
pub fn create_exec(
    conn: &rusqlite::Connection,
    table_name: &str,
    id: i32,
    name: &str,
    gender: &str,
    city: &str,
) -> (res: Result<String, StoreError>)
    ensures
        match res {
            Ok(line) => line@ == inserted_view(id as int, table_name@),
            Err(e) => !(e is NotFound),
        },
{
    let statement = insert_statement(table_name, id, name, gender, city);
    conclude(run(conn, &statement), inserted_line(id, table_name))
}

/// Deletes the row of `table_name` with key `id`. What a key that no row has
/// leads to is for `strictness` to say.
pub fn delete_exec_with(
    conn: &rusqlite::Connection,
    table_name: &str,
    id: i32,
    strictness: Strictness,
) -> (res: Result<String, StoreError>)
    ensures
        res matches Ok(line) ==> line@ == deleted_view(id as int, table_name@),
        res matches Err(StoreError::NotFound(key)) ==> key == id && strictness
            == Strictness::Strict,
{
    let statement = delete_statement(table_name, id);
    conclude_change(run(conn, &statement), strictness, id, deleted_line(id, table_name))
}

/// Deletes the row of `table_name` with key `id`. A key that no row has is
/// no failure.
pub fn delete_exec(conn: &rusqlite::Connection, table_name: &str, id: i32) -> (res: Result<
    String,
    StoreError,
>)
    ensures
        match res {
            Ok(line) => line@ == deleted_view(id as int, table_name@),
            Err(e) => !(e is NotFound),
        },
{
    delete_exec_with(conn, table_name, id, Strictness::Lenient)
}

} // verus!
