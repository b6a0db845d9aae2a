//! The query language: entry points for building statements.

use vstd::prelude::*;

pub mod definition;
pub mod description;

use crate::statement::CreateTable;
use crate::statement::InsertInto;
use crate::statement::Select;

verus! {

/// Create a column description.
pub fn column() -> (r: description::Column)
    ensures
        r@.name is None,
        r@.kind is None,
{
    description::Column::new()
}

/// Create a `CREATE TABLE` statement.
pub fn create_table() -> (r: CreateTable)
    ensures
        r@.columns is None,
        r@.name is None,
        !r@.if_not_exists,
{
    CreateTable::new()
}

/// Create an `INSERT INTO` statement.
pub fn insert_into() -> (r: InsertInto)
    ensures
        r@.columns is None,
        r@.multiplex is None,
        r@.table is None,
{
    InsertInto::new()
}

/// Create a `SELECT` statement.
pub fn select() -> (r: Select)
    ensures
        r@.columns is None,
        r@.limit is None,
        r@.table is None,
{
    Select::new()
}

} // verus!
