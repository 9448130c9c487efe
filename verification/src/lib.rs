//! A small store of people on top of an SQL engine: a table with a key and
//! three texts per row, statements to create, fill, change and read it, a
//! loader for CSV data, and the steps of fetching that data from the web.
//!
//! The statements, the reading of records and numbers, the reports and the
//! order of the steps are verified. The engine and the CSV reader are called
//! through `engine` and `loader::read_records`, whose contracts are taken on
//! trust.

pub mod decimal;
pub mod engine;
pub mod fetch;
pub mod loader;
pub mod person;
pub mod report;
pub mod statement;
pub mod store;

pub use fetch::extract;
pub use loader::load_data_from_csv;
pub use store::{create_exec, create_table, delete_exec, drop_table, read_exec, update_exec};
