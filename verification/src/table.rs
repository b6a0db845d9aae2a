//! A table: a client-side cache of a created table's shape.

use std::rc::Rc;

use vstd::prelude::*;

use crate::column::Column;
use crate::column::ColumnView;
use crate::database::Database;
use crate::driver::Driver;
use crate::statement::create_table::CreateColumnView;
use crate::statement::CreateColumn;
use crate::statement::CreateTable;
use crate::Error;

verus! {

/// A table: the name and columns it was created with, alongside a shared
/// handle to the driver connection.
///
/// The cache is not re-validated against the live schema afterward; it is a
/// client-side convenience, not a source of truth.
pub struct Table<T: Driver> {
    name: String,
    columns: Vec<Column>,
    driver: Rc<T>,
}

/// The abstract state of a table: its name and its columns.
pub struct TableView {
    pub name: Seq<char>,
    pub columns: Seq<ColumnView>,
}

impl<T: Driver> View for Table<T> {
    type V = TableView;

    closed spec fn view(&self) -> TableView {
        TableView { name: self.name@, columns: self.columns@.map_values(|c: Column| c@) }
    }
}

impl<T: Driver> Table<T> {
    /// Create a table, caching its shape.
    ///
    /// The compiled statement carries `IF NOT EXISTS`, so the call has no
    /// effect on the database if the table already exists.  A table must
    /// have at least one column: with none, compilation fails and the
    /// driver is never reached.
    pub fn new(database: &Database<T>, name: &str, columns: &[Column]) -> (r: Result<
        Table<T>,
        Error,
    >)
        ensures
            columns@.len() == 0 ==> (r matches Err(e) && e@ == crate::text::unset_message(
                "columns"@,
            )),
            r is Ok ==> columns@.len() > 0,
            r matches Ok(table) ==> table@.name == name@ && table@.columns == columns@.map_values(
                |c: Column| c@,
            ),
    {
        let mut statement = CreateTable::new().if_not_exists().name(name);
        let ghost target = columns@.map_values(
            |c: Column| CreateColumnView { name: Some(c@.name), kind: Some(c@.kind) },
        );
        let n = columns.len();
        let mut i: usize = 0;
        while i < n
            invariant
                i <= n,
                n == columns@.len(),
                target == columns@.map_values(
                    |c: Column| CreateColumnView { name: Some(c@.name), kind: Some(c@.kind) },
                ),
                statement@.name == Some(name@),
                statement@.if_not_exists,
                statement@.columns == if i == 0 {
                    None::<Seq<CreateColumnView>>
                } else {
                    Some(target.take(i as int))
                },
            decreases n - i,
        {
            let column = CreateColumn::empty().name(columns[i].name.as_str()).kind(
                columns[i].kind,
            );
            statement = statement.with_column(column);
            proof {
                assert(target[i as int] == (CreateColumnView {
                    name: Some(columns@[i as int]@.name),
                    kind: Some(columns@[i as int]@.kind),
                }));
                if i == 0 {
                    assert(seq![target[0]] =~= target.take(1));
                } else {
                    assert(target.take(i as int).push(target[i as int]) =~= target.take(
                        i as int + 1,
                    ));
                }
            }
            i += 1;
        }
        match database.execute(statement) {
            Ok(_) => {
                let mut held: Vec<Column> = Vec::new();
                let mut j: usize = 0;
                while j < n
                    invariant
                        j <= n,
                        n == columns@.len(),
                        held@.len() == j,
                        forall|k: int| 0 <= k < j ==> held@[k]@ == columns@[k]@,
                    decreases n - j,
                {
                    held.push(Column { name: columns[j].name.clone(), kind: columns[j].kind });
                    j += 1;
                }
                let table = Table { name: name.to_owned(), columns: held, driver: Rc::clone(
                    database.driver(),
                ) };
                proof {
                    assert(table@.columns =~= columns@.map_values(|c: Column| c@));
                }
                Ok(table)
            },
            Err(e) => Err(e),
        }
    }

    /// The name the table was created with.
    pub fn name(&self) -> (r: &str)
        ensures
            r@ == self@.name,
    {
        self.name.as_str()
    }

    /// The columns the table was created with.
    pub fn columns(&self) -> (r: &Vec<Column>)
        ensures
            r@.map_values(|c: Column| c@) == self@.columns,
    {
        &self.columns
    }

    /// Prepare a statement on the table's connection.
    pub(crate) fn prepare(&self, query: &str) -> Result<<T as Driver>::Prepared, Error> {
        self.driver.prepare(query)
    }
}

} // verus!
