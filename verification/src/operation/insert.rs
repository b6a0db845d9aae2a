//! The insert operation.

use vstd::prelude::*;

use crate::operation::Operation;
use crate::statement::insert_into::compile_insert;
use crate::statement::insert_into::insert_result;
use crate::statement::insert_into::insert_view;
use crate::statement::insert_into::InsertView;
use crate::Error;

verus! {

/// An insert operation: the same shape as an `INSERT INTO` statement, used
/// by the table-writing façade.
pub struct Insert {
    columns: Option<Vec<String>>,
    multiplex: Option<usize>,
    table: Option<String>,
}

impl View for Insert {
    type V = InsertView;

    closed spec fn view(&self) -> InsertView {
        insert_view(&self.columns, &self.multiplex, &self.table)
    }
}

impl Insert {
    /// Create an operation with no field set.
    pub fn new() -> (r: Self)
        ensures
            r@.columns is None,
            r@.multiplex is None,
            r@.table is None,
    {
        Insert { columns: None, multiplex: None, table: None }
    }

    /// Append a column name.
    pub fn column(self, value: &str) -> (r: Self)
        ensures
            r@.columns == Some(
                match self@.columns {
                    Some(cols) => cols.push(value@),
                    None => seq![value@],
                },
            ),
            r@.multiplex == self@.multiplex,
            r@.table == self@.table,
    {
        let Insert { columns, multiplex, table } = self;
        let ghost before = insert_view(&columns, &multiplex, &table);
        let mut cols = match columns {
            Some(cols) => cols,
            None => Vec::new(),
        };
        cols.push(value.to_owned());
        let r = Insert { columns: Some(cols), multiplex, table };
        proof {
            let f = |c: String| c@;
            match before.columns {
                Some(old_cols) => {
                    assert(cols@.map_values(f) =~= old_cols.push(value@));
                },
                None => {
                    assert(cols@.map_values(f) =~= seq![value@]);
                },
            }
        }
        r
    }

    /// Extend the operation for inserting multiple rows at once.
    pub fn multiplex(self, value: usize) -> (r: Self)
        ensures
            r@ == (InsertView { multiplex: Some(value), ..self@ }),
    {
        Insert { multiplex: Some(value), ..self }
    }

    /// Set the table.
    pub fn table(self, value: &str) -> (r: Self)
        ensures
            r@ == (InsertView { table: Some(value@), ..self@ }),
    {
        Insert { table: Some(value.to_owned()), ..self }
    }
}

impl Operation for Insert {
    open spec fn spec_compile(&self) -> Result<Seq<char>, Seq<char>> {
        insert_result(self@)
    }

    fn compile(self) -> (r: Result<String, Error>) {
        let Insert { columns, multiplex, table } = self;
        compile_insert(columns, multiplex, table)
    }
}

} // verus!
