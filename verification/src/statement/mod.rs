//! Statements: builders that compile to query text.

use vstd::prelude::*;

use crate::Error;

pub mod create_table;
pub mod insert_into;
pub mod select;

pub use self::create_table::CreateColumn;
pub use self::create_table::CreateTable;
pub use self::insert_into::InsertInto;
pub use self::select::Select;

verus! {

/// A statement.
///
/// Compilation is one-shot and deterministic: the outcome — the exact text
/// on success, or the exact message on failure — is a specification-level
/// function of the builder's accumulated state.
pub trait Statement: Sized {
    /// The specified outcome of compiling this statement.
    spec fn spec_compile(&self) -> Result<Seq<char>, Seq<char>>;

    /// Compile the statement.
    fn compile(self) -> (r: Result<String, Error>)
        ensures
            crate::reflects(self.spec_compile(), r),
    ;
}

} // verus!
