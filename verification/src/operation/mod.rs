//! Operations: the insert builder used by the table-writing façade.

use vstd::prelude::*;

use crate::Error;

mod insert;

pub use self::insert::Insert;

verus! {

/// An operation.
///
/// Like a statement, an operation compiles one-shot and deterministically:
/// the outcome is a specification-level function of the builder's state.
pub trait Operation: Sized {
    /// The specified outcome of compiling this operation.
    spec fn spec_compile(&self) -> Result<Seq<char>, Seq<char>>;

    /// Compile the operation.
    fn compile(self) -> (r: Result<String, Error>)
        ensures
            crate::reflects(self.spec_compile(), r),
    ;
}

} // verus!
