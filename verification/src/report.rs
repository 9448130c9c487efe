//! The line that each operation reports when it has gone through.

use crate::decimal::{integer_text, push_i32};
use vstd::prelude::*;

verus! {

/// `Table 't' created successfully.`
pub open spec fn created_view(table: Seq<char>) -> Seq<char> {
    "Table '"@ + table + "' created successfully."@
}

/// `Table 't' dropped successfully.`
pub open spec fn dropped_view(table: Seq<char>) -> Seq<char> {
    "Table '"@ + table + "' dropped successfully."@
}

/// `Inserted person with ID '11' into the 't' table successfully!`
pub open spec fn inserted_view(id: int, table: Seq<char>) -> Seq<char> {
    "Inserted person with ID '"@ + integer_text(id) + "' into the '"@ + table
        + "' table successfully!"@
}

/// `Record with ID '11' updated successfully in table 't'.`
pub open spec fn updated_view(id: int, table: Seq<char>) -> Seq<char> {
    "Record with ID '"@ + integer_text(id) + "' updated successfully in table '"@ + table + "'."@
}

/// `No fields to update for ID: 11`
pub open spec fn nothing_to_update_view(id: int) -> Seq<char> {
    "No fields to update for ID: "@ + integer_text(id)
}

/// `Deleted person with ID '11' from the 't' table successfully!`
pub open spec fn deleted_view(id: int, table: Seq<char>) -> Seq<char> {
    "Deleted person with ID '"@ + integer_text(id) + "' from the '"@ + table
        + "' table successfully!"@
}

/// `Data loaded successfully from 'people.csv' into table 't'.`
pub open spec fn loaded_view(source: Seq<char>, table: Seq<char>) -> Seq<char> {
    "Data loaded successfully from '"@ + source + "' into table '"@ + table + "'."@
}

/// `File has been downloaded to data/people.csv`
pub open spec fn downloaded_view(path: Seq<char>) -> Seq<char> {
    "File has been downloaded to "@ + path
}

/// The report of a table created.
pub fn created_line(table_name: &str) -> (line: String)
    ensures
        line@ == created_view(table_name@),
{
    let mut line = String::from_str("Table '");
    line.append(table_name);
    line.append("' created successfully.");
    line
}

/// The report of a table dropped.
pub fn dropped_line(table_name: &str) -> (line: String)
    ensures
        line@ == dropped_view(table_name@),
{
    let mut line = String::from_str("Table '");
    line.append(table_name);
    line.append("' dropped successfully.");
    line
}

/// The report of a row inserted.
pub fn inserted_line(id: i32, table_name: &str) -> (line: String)
    ensures
        line@ == inserted_view(id as int, table_name@),
{
    let mut line = String::from_str("Inserted person with ID '");
    push_i32(&mut line, id);
    line.append("' into the '");
    line.append(table_name);
    line.append("' table successfully!");
    line
}

/// The report of an update that was run.
pub fn updated_line(id: i32, table_name: &str) -> (line: String)
    ensures
        line@ == updated_view(id as int, table_name@),
{
    let mut line = String::from_str("Record with ID '");
    push_i32(&mut line, id);
    line.append("' updated successfully in table '");
    line.append(table_name);
    line.append("'.");
    line
}

/// The notice of an update that names no new value.
pub fn nothing_to_update_line(id: i32) -> (line: String)
    ensures
        line@ == nothing_to_update_view(id as int),
{
    let mut line = String::from_str("No fields to update for ID: ");
    push_i32(&mut line, id);
    line
}

/// The report of a delete that was run.
pub fn deleted_line(id: i32, table_name: &str) -> (line: String)
    ensures
        line@ == deleted_view(id as int, table_name@),
{
    let mut line = String::from_str("Deleted person with ID '");
    push_i32(&mut line, id);
    line.append("' from the '");
    line.append(table_name);
    line.append("' table successfully!");
    line
}

/// The report of a file loaded into a table.
pub fn loaded_line(source: &str, table_name: &str) -> (line: String)
    ensures
        line@ == loaded_view(source@, table_name@),
{
    let mut line = String::from_str("Data loaded successfully from '");
    line.append(source);
    line.append("' into table '");
    line.append(table_name);
    line.append("'.");
    line
}

/// The report of a file fetched to `path`.
pub fn downloaded_line(path: &str) -> (line: String)
    ensures
        line@ == downloaded_view(path@),
{
    let mut line = String::from_str("File has been downloaded to ");
    line.append(path);
    line
}

} // verus!
