//! Database drivers: the capability contract a storage backend satisfies.
//!
//! The traits here are the seam between the verified compilation and
//! orchestration layer and an arbitrary storage engine.  A backend
//! implements them outside this crate; nothing is assumed of what its calls
//! return, so everything proved of the code above this seam holds whatever
//! the backend does.

use vstd::prelude::*;

use crate::column::Value;
use crate::Error;

verus! {

/// A prepared statement: a backend-held handle to previously compiled text,
/// bindable with typed values and re-executable.
///
/// Each `execute` resets any prior cursor state, binds the values
/// positionally against the statement's placeholders, and runs the
/// statement; a count or type mismatch is the backend's error.  After an
/// execution that yields rows, `next` steps through them until it returns
/// `None`; the statement stays reusable through another `execute`.
pub trait Prepared: Sized {
    /// Assign values to the parameters and execute the statement.
    fn execute(&mut self, values: &[Value]) -> Result<(), Error>;

    /// Read the next record of the current execution, or `None` once
    /// exhausted.
    fn next(&mut self) -> Result<Option<Vec<Value>>, Error>;

    /// Give the backend a chance to wait between retried writes.
    fn pause(&mut self);
}

/// A driver.
pub trait Driver: Sized {
    /// The type of prepared statements.
    type Prepared: Prepared;

    /// Establish a connection to the store at the given location, creating
    /// it if it does not exist.
    fn connect(path: &str) -> Result<Self, Error>;

    /// Execute a query without parameters.
    fn execute(&self, query: &str) -> Result<(), Error>;

    /// Prepare a statement for repeated execution.
    fn prepare(&self, query: &str) -> Result<Self::Prepared, Error>;
}

} // verus!
