//! Definitions: parts of a statement that compile without being consumed.

use vstd::prelude::*;

use crate::Error;

pub use crate::language::description::Column;

verus! {

/// A definition.
///
/// Unlike a description, a definition compiles by reference and can be
/// compiled again; the outcome is the same each time.
pub trait Definition: Sized {
    /// The specified outcome of compiling this definition.
    spec fn spec_compile(&self) -> Result<Seq<char>, Seq<char>>;

    /// Compile the definition.
    fn compile(&self) -> (r: Result<String, Error>)
        ensures
            crate::reflects(self.spec_compile(), r),
    ;
}

} // verus!
