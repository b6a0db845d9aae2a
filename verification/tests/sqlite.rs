//! The full workflow against a real SQLite backend.

use database::driver::Driver;
use database::driver::Prepared;
use database::language::create_table;
use database::language::insert_into;
use database::language::select;
use database::Database;
use database::Error;
use database::Type;
use database::Value;

/// A SQLite backend for the driver contract.  The connection is leaked so
/// that prepared statements, which borrow it, can be owned alongside it.
struct SQLite {
    backend: &'static sqlite::Connection,
}

struct SQLiteStatement {
    state: Option<sqlite::State>,
    backend: sqlite::Statement<'static>,
}

fn wrap<T>(result: Result<T, sqlite::Error>) -> Result<T, Error> {
    result.map_err(|error| Error::new(format!("{}", error)))
}

impl Driver for SQLite {
    type Prepared = SQLiteStatement;

    fn connect(path: &str) -> Result<Self, Error> {
        let connection = wrap(sqlite::open(path))?;
        Ok(SQLite {
            backend: Box::leak(Box::new(connection)),
        })
    }

    fn execute(&self, query: &str) -> Result<(), Error> {
        wrap(self.backend.execute(query))
    }

    fn prepare(&self, query: &str) -> Result<SQLiteStatement, Error> {
        let backend = wrap(self.backend.prepare(query))?;
        Ok(SQLiteStatement {
            state: None,
            backend,
        })
    }
}

impl Prepared for SQLiteStatement {
    fn execute(&mut self, values: &[Value]) -> Result<(), Error> {
        wrap(self.backend.reset())?;
        for (i, value) in values.iter().enumerate() {
            let index = i + 1;
            match value {
                Value::Binary(value) => wrap(self.backend.bind((index, &value[..])))?,
                Value::Float(bits) => wrap(self.backend.bind((index, f64::from_bits(*bits))))?,
                Value::Integer(value) => wrap(self.backend.bind((index, *value)))?,
                Value::String(value) => wrap(self.backend.bind((index, &value[..])))?,
            }
        }
        self.state = Some(wrap(self.backend.next())?);
        Ok(())
    }

    fn next(&mut self) -> Result<Option<Vec<Value>>, Error> {
        match self.state {
            Some(sqlite::State::Row) => {}
            _ => return Ok(None),
        }
        let count = self.backend.column_count();
        let mut values = Vec::with_capacity(count);
        for i in 0..count {
            match wrap(self.backend.column_type(i))? {
                sqlite::Type::Binary => {
                    values.push(Value::Binary(wrap(self.backend.read(i))?));
                }
                sqlite::Type::Float => {
                    values.push(Value::Float(f64::to_bits(wrap(self.backend.read(i))?)));
                }
                sqlite::Type::Integer => {
                    values.push(Value::Integer(wrap(self.backend.read(i))?));
                }
                sqlite::Type::String => {
                    values.push(Value::String(wrap(self.backend.read(i))?));
                }
                sqlite::Type::Null => {
                    values.push(Value::Integer(0));
                }
            }
        }
        self.state = Some(wrap(self.backend.next())?);
        Ok(Some(values))
    }

    fn pause(&mut self) {}
}

#[test]
fn workflow() {
    let database: Database<SQLite> = Database::open(":memory:").unwrap();

    let statement = create_table()
        .name("foo")
        .if_not_exists()
        .column(|column| column.name("bar").kind(Type::Float))
        .column(|column| column.name("baz").kind(Type::Integer));
    database.execute(statement).unwrap();

    let statement = insert_into()
        .table("foo")
        .column("bar")
        .column("baz")
        .multiplex(3);
    let mut statement = database.prepare(statement).unwrap();
    statement
        .execute(&[
            Value::Float(42.0f64.to_bits()),
            Value::Integer(69),
            Value::Float(43.0f64.to_bits()),
            Value::Integer(70),
            Value::Float(44.0f64.to_bits()),
            Value::Integer(71),
        ])
        .unwrap();

    let statement = select().table("foo");
    let mut statement = database.prepare(statement).unwrap();
    statement.execute(&[]).unwrap();

    let mut i = 0;
    while let Some(record) = statement.next().unwrap() {
        assert_eq!(record[0], Value::Float((42.0 + i as f64).to_bits()));
        assert_eq!(record[1], Value::Integer(69 + i as i64));
        i += 1;
    }
    assert_eq!(i, 3);
}

#[test]
fn prepared_statement_rebinds_on_each_execution() {
    let database: Database<SQLite> = Database::open(":memory:").unwrap();

    let statement = create_table()
        .name("foo")
        .column(|column| column.name("bar").kind(Type::String))
        .column(|column| column.name("baz").kind(Type::Binary));
    database.execute(statement).unwrap();

    let statement = insert_into().table("foo").column("bar").column("baz");
    let mut statement = database.prepare(statement).unwrap();
    statement
        .execute(&[
            Value::String(String::from("alpha")),
            Value::Binary(vec![1, 2, 3]),
        ])
        .unwrap();
    statement
        .execute(&[
            Value::String(String::from("beta")),
            Value::Binary(vec![4, 5]),
        ])
        .unwrap();

    let statement = select().table("foo").column("bar").column("baz");
    let mut statement = database.prepare(statement).unwrap();
    statement.execute(&[]).unwrap();

    let record = statement.next().unwrap().unwrap();
    assert_eq!(record[0], Value::String(String::from("alpha")));
    assert_eq!(record[1], Value::Binary(vec![1, 2, 3]));
    let record = statement.next().unwrap().unwrap();
    assert_eq!(record[0], Value::String(String::from("beta")));
    assert_eq!(record[1], Value::Binary(vec![4, 5]));
    assert!(statement.next().unwrap().is_none());
}

#[test]
fn select_limit_against_backend() {
    let database: Database<SQLite> = Database::open(":memory:").unwrap();

    let statement = create_table()
        .name("foo")
        .column(|column| column.name("bar").kind(Type::Integer));
    database.execute(statement).unwrap();

    let statement = insert_into().table("foo").column("bar").multiplex(4);
    let mut statement = database.prepare(statement).unwrap();
    statement
        .execute(&[
            Value::Integer(1),
            Value::Integer(2),
            Value::Integer(3),
            Value::Integer(4),
        ])
        .unwrap();

    let statement = select().table("foo").limit(2);
    let mut statement = database.prepare(statement).unwrap();
    statement.execute(&[]).unwrap();
    let mut read = 0;
    while let Some(_record) = statement.next().unwrap() {
        read += 1;
    }
    assert_eq!(read, 2);
}
