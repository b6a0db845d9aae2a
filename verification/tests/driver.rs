//! The orchestration layer over fault-injecting and in-memory fake backends.

use std::cell::RefCell;
use std::rc::Rc;

use database::driver::Driver;
use database::driver::Prepared;
use database::language::select;
use database::Column;
use database::Database;
use database::Error;
use database::Type;
use database::Value;

use database::table::Table;
use database::writer::Writer;

/// An in-memory backend: inserts append rows to a shared store, selects
/// snapshot the store and step through it.
struct MemoryDriver {
    store: Rc<RefCell<Vec<Vec<Value>>>>,
}

enum StatementKind {
    Insert,
    Select,
}

struct MemoryStatement {
    store: Rc<RefCell<Vec<Vec<Value>>>>,
    kind: StatementKind,
    snapshot: Vec<Vec<Value>>,
    cursor: usize,
}

impl Driver for MemoryDriver {
    type Prepared = MemoryStatement;

    fn connect(_path: &str) -> Result<Self, Error> {
        Ok(MemoryDriver {
            store: Rc::new(RefCell::new(Vec::new())),
        })
    }

    fn execute(&self, _query: &str) -> Result<(), Error> {
        Ok(())
    }

    fn prepare(&self, query: &str) -> Result<MemoryStatement, Error> {
        let kind = if query.starts_with("INSERT") {
            StatementKind::Insert
        } else {
            StatementKind::Select
        };
        Ok(MemoryStatement {
            store: Rc::clone(&self.store),
            kind,
            snapshot: Vec::new(),
            cursor: 0,
        })
    }
}

impl Prepared for MemoryStatement {
    fn execute(&mut self, values: &[Value]) -> Result<(), Error> {
        match self.kind {
            StatementKind::Insert => {
                self.store.borrow_mut().push(values.to_vec());
                Ok(())
            }
            StatementKind::Select => {
                self.snapshot = self.store.borrow().clone();
                self.cursor = 0;
                Ok(())
            }
        }
    }

    fn next(&mut self) -> Result<Option<Vec<Value>>, Error> {
        match self.kind {
            StatementKind::Select => {
                if self.cursor < self.snapshot.len() {
                    let record = self.snapshot[self.cursor].clone();
                    self.cursor += 1;
                    Ok(Some(record))
                } else {
                    Ok(None)
                }
            }
            StatementKind::Insert => Ok(None),
        }
    }

    fn pause(&mut self) {}
}

/// A flaky backend: each prepared statement fails its first `fails` calls
/// of `execute`, where `fails` is parsed from the connection path.
struct FlakyDriver {
    fails: usize,
}

struct FlakyStatement {
    fails_left: usize,
}

impl Driver for FlakyDriver {
    type Prepared = FlakyStatement;

    fn connect(path: &str) -> Result<Self, Error> {
        Ok(FlakyDriver {
            fails: path.parse().unwrap_or(0),
        })
    }

    fn execute(&self, _query: &str) -> Result<(), Error> {
        Ok(())
    }

    fn prepare(&self, _query: &str) -> Result<FlakyStatement, Error> {
        Ok(FlakyStatement {
            fails_left: self.fails,
        })
    }
}

impl Prepared for FlakyStatement {
    fn execute(&mut self, _values: &[Value]) -> Result<(), Error> {
        if self.fails_left > 0 {
            self.fails_left -= 1;
            Err(Error::new(String::from("injected failure")))
        } else {
            Ok(())
        }
    }

    fn next(&mut self) -> Result<Option<Vec<Value>>, Error> {
        Ok(None)
    }

    fn pause(&mut self) {}
}

fn columns() -> Vec<Column> {
    vec![
        Column {
            name: String::from("bar"),
            kind: Type::Float,
        },
        Column {
            name: String::from("baz"),
            kind: Type::Integer,
        },
    ]
}

#[test]
fn round_trip() {
    let database: Database<MemoryDriver> = Database::open(":memory:").unwrap();
    let table = Table::new(&database, "foo", &columns()).unwrap();
    let mut writer = Writer::new(&table).unwrap();
    writer
        .write(&[Value::Float(42.0f64.to_bits()), Value::Integer(69)])
        .unwrap();

    let mut statement = database.prepare(select().table("foo")).unwrap();
    statement.execute(&[]).unwrap();
    let record = statement.next().unwrap().unwrap();
    assert_eq!(record[0], Value::Float(42.0f64.to_bits()));
    assert_eq!(record[1], Value::Integer(69));
    assert!(statement.next().unwrap().is_none());
}

#[test]
fn reusable_statement() {
    let database: Database<MemoryDriver> = Database::open(":memory:").unwrap();
    let table = Table::new(&database, "foo", &columns()).unwrap();
    let mut writer = Writer::new(&table).unwrap();
    writer
        .write(&[Value::Float(42.0f64.to_bits()), Value::Integer(69)])
        .unwrap();
    writer
        .write(&[Value::Float(43.0f64.to_bits()), Value::Integer(70)])
        .unwrap();

    let mut statement = database.prepare(select().table("foo")).unwrap();
    statement.execute(&[]).unwrap();
    assert_eq!(
        statement.next().unwrap().unwrap()[1],
        Value::Integer(69)
    );
    assert_eq!(
        statement.next().unwrap().unwrap()[1],
        Value::Integer(70)
    );
    assert!(statement.next().unwrap().is_none());

    // A second execution starts an independent cursor from the beginning.
    statement.execute(&[]).unwrap();
    assert_eq!(
        statement.next().unwrap().unwrap()[1],
        Value::Integer(69)
    );
    assert_eq!(
        statement.next().unwrap().unwrap()[1],
        Value::Integer(70)
    );
    assert!(statement.next().unwrap().is_none());
}

#[test]
fn retry_exhaustion() {
    // A backend that fails every attempt: the write is reported as failed
    // only after the whole attempt budget is spent.
    let database: Database<FlakyDriver> = Database::open("1000000").unwrap();
    let table = Table::new(&database, "foo", &columns()).unwrap();
    let mut writer = Writer::new(&table).unwrap();
    let error = writer
        .write(&[Value::Float(42.0f64.to_bits()), Value::Integer(69)])
        .unwrap_err();
    assert_eq!(error.message(), "cannot write into the database");
}

#[test]
fn retry_attempts_are_exactly_budgeted() {
    // A backend that fails twice and then succeeds: the third attempt is
    // still made, so the write succeeds.
    let database: Database<FlakyDriver> = Database::open("2").unwrap();
    let table = Table::new(&database, "foo", &columns()).unwrap();
    let mut writer = Writer::new(&table).unwrap();
    assert!(writer
        .write(&[Value::Float(42.0f64.to_bits()), Value::Integer(69)])
        .is_ok());

    // A backend that fails three times: the budget of three attempts is
    // exhausted and the write fails.
    let database: Database<FlakyDriver> = Database::open("3").unwrap();
    let table = Table::new(&database, "foo", &columns()).unwrap();
    let mut writer = Writer::new(&table).unwrap();
    assert!(writer
        .write(&[Value::Float(42.0f64.to_bits()), Value::Integer(69)])
        .is_err());
}

#[test]
fn table_requires_a_column() {
    let database: Database<MemoryDriver> = Database::open(":memory:").unwrap();
    let error = match Table::new(&database, "foo", &[]) {
        Err(error) => error,
        Ok(_) => panic!("expected an error"),
    };
    assert_eq!(error.message(), "expected `columns` to be set");
}

#[test]
fn compile_error_reaches_caller_unchanged() {
    let database: Database<MemoryDriver> = Database::open(":memory:").unwrap();
    let error = database.execute(select().column("bar")).unwrap_err();
    assert_eq!(error.message(), "expected `table` to be set");
    let error = match database.prepare(select().column("bar")) {
        Err(error) => error,
        Ok(_) => panic!("expected an error"),
    };
    assert_eq!(error.message(), "expected `table` to be set");
}
