//! Queries: the compile capability under its query-flavored name.

use vstd::prelude::*;

use crate::operation::Operation;
use crate::statement::create_table::column_def_result;
use crate::statement::create_table::create_table_result;
use crate::statement::insert_into::insert_result;
use crate::statement::select::select_result;
use crate::statement::Statement;
use crate::Error;

pub use crate::operation::Insert;
pub use crate::statement::CreateColumn;
pub use crate::statement::CreateTable;
pub use crate::statement::Select;

verus! {

/// A query.
///
/// Compilation is one-shot and deterministic: the outcome is a
/// specification-level function of the builder's accumulated state.
pub trait Query: Sized {
    /// The specified outcome of compiling this query.
    spec fn spec_compile(&self) -> Result<Seq<char>, Seq<char>>;

    /// Compile the query.
    fn compile(self) -> (r: Result<String, Error>)
        ensures
            crate::reflects(self.spec_compile(), r),
    ;
}

impl Query for CreateColumn {
    open spec fn spec_compile(&self) -> Result<Seq<char>, Seq<char>> {
        column_def_result(self@)
    }

    fn compile(self) -> (r: Result<String, Error>) {
        Statement::compile(self)
    }
}

impl Query for CreateTable {
    open spec fn spec_compile(&self) -> Result<Seq<char>, Seq<char>> {
        create_table_result(self@)
    }

    fn compile(self) -> (r: Result<String, Error>) {
        Statement::compile(self)
    }
}

impl Query for Insert {
    open spec fn spec_compile(&self) -> Result<Seq<char>, Seq<char>> {
        insert_result(self@)
    }

    fn compile(self) -> (r: Result<String, Error>) {
        Operation::compile(self)
    }
}

impl Query for Select {
    open spec fn spec_compile(&self) -> Result<Seq<char>, Seq<char>> {
        select_result(self@)
    }

    fn compile(self) -> (r: Result<String, Error>) {
        Statement::compile(self)
    }
}

} // verus!
