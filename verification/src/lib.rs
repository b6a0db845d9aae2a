//! A typed query-construction and execution layer in front of a pluggable
//! storage engine.
//!
//! Statements are assembled through immutable builder objects, compiled to
//! query text, and executed through a narrow driver abstraction that a storage
//! backend implements.  Compilation is fully specified: every builder carries
//! a specification of the exact text it compiles to, or of the exact error it
//! fails with when a required field was never set.

use vstd::prelude::*;

mod buffer;
pub mod column;
pub mod database;
pub mod driver;
pub mod language;
pub mod operation;
pub mod prelude;
pub mod query;
pub mod statement;
pub mod table;
pub mod text;
pub mod writer;

pub use column::Column;
pub use column::Type;
pub use column::Value;
pub use database::Database;

verus! {

/// An error, carrying a human-readable message.
#[derive(Debug)]
pub struct Error {
    message: String,
}

impl View for Error {
    type V = Seq<char>;

    closed spec fn view(&self) -> Seq<char> {
        self.message@
    }
}

impl Error {
    /// Wrap a message in an error.
    pub fn new(message: String) -> (r: Error)
        ensures
            r@ == message@,
    {
        Error { message }
    }

    /// The message carried by the error.
    pub fn message(&self) -> (r: &str)
        ensures
            r@ == self@,
    {
        self.message.as_str()
    }
}

/// How the result of an executable compilation relates to the specified
/// outcome: success carries exactly the specified text, and failure carries
/// exactly the specified message.
pub open spec fn reflects(expected: Result<Seq<char>, Seq<char>>, r: Result<String, Error>) -> bool {
    match (expected, r) {
        (Ok(text), Ok(s)) => s@ == text,
        (Err(message), Err(e)) => e@ == message,
        _ => false,
    }
}

} // verus!
