//! A typed binding layer between record values and a relational store.
//!
//! From the declared fields of a record type the library derives the table
//! schema, the statements that create the table, insert into it and select
//! from it, and the sequences by which a record is bound to a statement and
//! read back from a row. All of them follow the one declaration order, so
//! that column order, placeholder position, bind position and read position
//! agree by construction.
//!
//! The store itself stays outside: a driver implements [`driver::StoreDriver`]
//! and [`driver::DriverCursor`], and the library keeps its contracts whatever
//! the driver answers.

pub mod adapter;
pub mod column;
pub mod descriptor;
pub mod driver;
pub mod error;
pub mod query;
pub mod record;
pub mod sample;
pub mod schema;
pub mod selector;
pub mod text;
pub mod types;

pub use crate::adapter::{ColumnFacade, SqlAdapter, SqlAdapterCursor, SqlColumnIter, SqlSelectIter};
pub use crate::column::{bind_sqltype, prim_typename, sql_typename, SqlPrimitive, SqlType};
pub use crate::record::{create_table_query, insert_query, select_query, table_name, Table};
pub use crate::selector::{column_selector, table_selector, ColumnSelector, TableSelector};
