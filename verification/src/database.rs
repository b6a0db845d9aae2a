//! A database: a shared connection behind a driver.

use std::rc::Rc;

use vstd::prelude::*;

use crate::driver::Driver;
use crate::statement::Statement;
use crate::Error;

verus! {

/// A database, holding a shared handle to a driver connection.
///
/// The handle is reference-counted: tables, writers and prepared statements
/// may share it, and the connection is torn down only when the last holder
/// drops its reference.
pub struct Database<T: Driver> {
    driver: Rc<T>,
}

impl<T: Driver> Database<T> {
    /// Open a database at the given location, creating it if it does not
    /// exist.
    pub fn open(path: &str) -> Result<Self, Error> {
        match T::connect(path) {
            Ok(driver) => Ok(Database { driver: Rc::new(driver) }),
            Err(e) => Err(e),
        }
    }

    /// Compile a statement and execute it.
    ///
    /// A statement whose compilation fails never reaches the driver: its
    /// compilation error is returned unchanged.  Success implies the
    /// statement compiled.
    pub fn execute<S: Statement>(&self, statement: S) -> (r: Result<(), Error>)
        ensures
            statement.spec_compile() matches Err(message) ==> r matches Err(e) && e@ == message,
            r is Ok ==> statement.spec_compile() is Ok,
    {
        match statement.compile() {
            Ok(text) => self.driver.execute(text.as_str()),
            Err(e) => Err(e),
        }
    }

    /// Compile a statement and prepare it for repeated execution.
    ///
    /// A statement whose compilation fails never reaches the driver: its
    /// compilation error is returned unchanged.  Success implies the
    /// statement compiled.
    pub fn prepare<S: Statement>(&self, statement: S) -> (r: Result<T::Prepared, Error>)
        ensures
            statement.spec_compile() matches Err(message) ==> r matches Err(e) && e@ == message,
            r is Ok ==> statement.spec_compile() is Ok,
    {
        match statement.compile() {
            Ok(text) => self.driver.prepare(text.as_str()),
            Err(e) => Err(e),
        }
    }

    /// The shared driver handle.
    pub(crate) fn driver(&self) -> &Rc<T> {
        &self.driver
    }
}

} // verus!
