//! A writer: a reusable insert statement with bounded retry.

use vstd::prelude::*;

use crate::column::Column;
use crate::column::Value;
use crate::driver::Driver;
use crate::driver::Prepared;
use crate::operation::Insert;
use crate::operation::Operation;
use crate::table::Table;
use crate::Error;

verus! {

/// How many times a write is attempted before it is reported as failed.
pub const WRITE_ATTEMPTS: usize = 3;

/// The message reported when every write attempt has failed.
pub open spec fn write_failure() -> Seq<char> {
    "cannot write into the database"@
}

/// A writer, holding a prepared insert statement over a table's columns.
pub struct Writer<T: Driver> {
    statement: <T as Driver>::Prepared,
}

impl<T: Driver> Writer<T> {
    /// Create a writer over all of a table's columns.
    pub fn new(table: &Table<T>) -> (r: Result<Writer<T>, Error>)
        ensures
            table@.columns.len() == 0 ==> (r matches Err(e) && e@ == crate::text::unset_message(
                "columns"@,
            )),
            r is Ok ==> table@.columns.len() > 0,
    {
        let columns = table.columns().as_slice();
        proof {
            assert(columns@.map_values(|c: Column| c@) == table@.columns);
        }
        Writer::with_columns(table, columns)
    }

    /// Create a writer over a subset of a table's columns.
    ///
    /// The prepared statement inserts one row per call: it is compiled with
    /// a multiplex of one.  At least one column is needed: with none,
    /// compilation fails and the driver is never reached.
    pub fn with_columns(table: &Table<T>, columns: &[Column]) -> (r: Result<Writer<T>, Error>)
        ensures
            columns@.len() == 0 ==> (r matches Err(e) && e@ == crate::text::unset_message(
                "columns"@,
            )),
            r is Ok ==> columns@.len() > 0,
    {
        let mut operation = Insert::new().table(table.name()).multiplex(1);
        let ghost names = columns@.map_values(|c: Column| c@.name);
        let n = columns.len();
        let mut i: usize = 0;
        while i < n
            invariant
                i <= n,
                n == columns@.len(),
                names == columns@.map_values(|c: Column| c@.name),
                operation@.table is Some,
                operation@.multiplex == Some(1usize),
                operation@.columns == if i == 0 {
                    None::<Seq<Seq<char>>>
                } else {
                    Some(names.take(i as int))
                },
            decreases n - i,
        {
            operation = operation.column(columns[i].name.as_str());
            proof {
                assert(names[i as int] == columns@[i as int]@.name);
                if i == 0 {
                    assert(seq![names[0]] =~= names.take(1));
                } else {
                    assert(names.take(i as int).push(names[i as int]) =~= names.take(i as int + 1));
                }
            }
            i += 1;
        }
        match operation.compile() {
            Ok(text) => match table.prepare(text.as_str()) {
                Ok(statement) => Ok(Writer { statement }),
                Err(e) => Err(e),
            },
            Err(e) => Err(e),
        }
    }

    /// Write one row of values through the prepared statement.
    ///
    /// The write is attempted up to `WRITE_ATTEMPTS` times; between failed
    /// attempts the statement's `pause` hook runs, so a backend may delay
    /// retrying.  Errors of intermediate attempts are suppressed; only
    /// exhaustion is reported, as the fixed failure message.
    pub fn write(&mut self, values: &[Value]) -> (r: Result<(), Error>)
        ensures
            r matches Err(e) ==> e@ == write_failure(),
    {
        let mut attempt: usize = 0;
        while attempt < WRITE_ATTEMPTS
            invariant
                attempt <= WRITE_ATTEMPTS,
            decreases WRITE_ATTEMPTS - attempt,
        {
            match self.statement.execute(values) {
                Ok(_) => {
                    return Ok(());
                },
                Err(_) => {
                    if attempt + 1 < WRITE_ATTEMPTS {
                        self.statement.pause();
                    }
                },
            }
            attempt += 1;
        }
        Err(Error::new(String::from_str("cannot write into the database")))
    }
}

} // verus!
