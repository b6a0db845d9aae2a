//! The `SELECT` statement.

use vstd::prelude::*;

use crate::buffer::decimal;
use crate::buffer::quote;
use crate::buffer::unset_error;
use crate::buffer::Buffer;
use crate::statement::Statement;
use crate::text::dec_rep;
use crate::text::joined;
use crate::text::quoted;
use crate::text::unset_message;
use crate::Error;

verus! {

/// A `SELECT` statement.
pub struct Select {
    columns: Option<Vec<String>>,
    limit: Option<usize>,
    table: Option<String>,
}

/// The abstract state of a select statement.
pub struct SelectView {
    pub columns: Option<Seq<Seq<char>>>,
    pub limit: Option<usize>,
    pub table: Option<Seq<char>>,
}

impl View for Select {
    type V = SelectView;

    closed spec fn view(&self) -> SelectView {
        SelectView {
            columns: match self.columns {
                Some(columns) => Some(columns@.map_values(|c: String| c@)),
                None => None,
            },
            limit: self.limit,
            table: match self.table {
                Some(table) => Some(table@),
                None => None,
            },
        }
    }
}

/// The column list of a select statement: the chosen columns in insertion
/// order, or `*` when no subset was chosen.
pub open spec fn columns_piece(columns: Option<Seq<Seq<char>>>) -> Seq<char> {
    match columns {
        Some(cols) => joined(cols.map_values(|c: Seq<char>| quoted(c)), ", "@),
        None => "*"@,
    }
}

/// The trailing limit of a select statement, empty when none was set.
pub open spec fn limit_piece(limit: Option<usize>) -> Seq<Seq<char>> {
    match limit {
        Some(limit) => seq!["LIMIT "@ + dec_rep(limit as nat)],
        None => Seq::empty(),
    }
}

/// The outcome of compiling a select statement: the statement text, or the
/// message naming the `table` field when it was never set.
pub open spec fn select_result(v: SelectView) -> Result<Seq<char>, Seq<char>> {
    match v.table {
        None => Err(unset_message("table"@)),
        Some(table) => Ok(
            joined(
                seq!["SELECT"@, columns_piece(v.columns), "FROM"@, quoted(table)] + limit_piece(
                    v.limit,
                ),
                " "@,
            ),
        ),
    }
}

impl Select {
    /// Create a statement with no field set.
    pub fn new() -> (r: Self)
        ensures
            r@.columns is None,
            r@.limit is None,
            r@.table is None,
    {
        Select { columns: None, limit: None, table: None }
    }

    /// Append a column name to the selected subset.
    pub fn column(self, value: &str) -> (r: Self)
        ensures
            r@.columns == Some(
                match self@.columns {
                    Some(cols) => cols.push(value@),
                    None => seq![value@],
                },
            ),
            r@.limit == self@.limit,
            r@.table == self@.table,
    {
        let Select { columns, limit, table } = self;
        let ghost old_columns: Option<Seq<Seq<char>>> = match columns {
            Some(ref cols) => Some(cols@.map_values(|c: String| c@)),
            None => None,
        };
        let mut cols = match columns {
            Some(cols) => cols,
            None => Vec::new(),
        };
        cols.push(value.to_owned());
        let r = Select { columns: Some(cols), limit, table };
        proof {
            let f = |c: String| c@;
            match old_columns {
                Some(old_cols) => {
                    assert(cols@.map_values(f) =~= old_cols.push(value@));
                },
                None => {
                    assert(cols@.map_values(f) =~= seq![value@]);
                },
            }
        }
        r
    }

    /// Set the limit.
    pub fn limit(self, value: usize) -> (r: Self)
        ensures
            r@ == (SelectView { limit: Some(value), ..self@ }),
    {
        Select { limit: Some(value), ..self }
    }

    /// Set the table.
    pub fn table(self, value: &str) -> (r: Self)
        ensures
            r@ == (SelectView { table: Some(value@), ..self@ }),
    {
        Select { table: Some(value.to_owned()), ..self }
    }
}

impl Statement for Select {
    open spec fn spec_compile(&self) -> Result<Seq<char>, Seq<char>> {
        select_result(self@)
    }

    fn compile(self) -> (r: Result<String, Error>) {
        let ghost v = self@;
        let Select { columns, limit, table } = self;
        let mut buffer = Buffer::new();
        buffer.push(String::from_str("SELECT"));
        match columns {
            Some(cols) => {
                let ghost cviews = cols@.map_values(|c: String| c@);
                let ghost quoted_views = cviews.map_values(|c: Seq<char>| quoted(c));
                let mut names = Buffer::new();
                let n = cols.len();
                let mut i: usize = 0;
                while i < n
                    invariant
                        i <= n,
                        n == cols.len(),
                        cviews == cols@.map_values(|c: String| c@),
                        quoted_views == cviews.map_values(|c: Seq<char>| quoted(c)),
                        names@ == quoted_views.take(i as int),
                    decreases n - i,
                {
                    names.push(quote(cols[i].as_str()));
                    proof {
                        assert(names@ =~= quoted_views.take(i as int + 1));
                    }
                    i += 1;
                }
                proof {
                    assert(quoted_views.take(n as int) =~= quoted_views);
                }
                buffer.push(names.join(", "));
            },
            None => {
                buffer.push(String::from_str("*"));
            },
        }
        buffer.push(String::from_str("FROM"));
        let table = match table {
            Some(table) => table,
            None => {
                return Err(unset_error("table"));
            },
        };
        buffer.push(quote(table.as_str()));
        if let Some(limit) = limit {
            let mut piece = String::from_str("LIMIT ");
            piece.append(decimal(limit).as_str());
            buffer.push(piece);
        }
        proof {
            let base = seq!["SELECT"@, columns_piece(v.columns), "FROM"@, quoted(table@)];
            match v.limit {
                Some(l) => {
                    assert(buffer@ =~= base + limit_piece(v.limit));
                },
                None => {
                    assert(buffer@ =~= base + limit_piece(v.limit));
                },
            }
        }
        Ok(buffer.join(" "))
    }
}

/// Compilation is deterministic: any two results that satisfy the compile
/// contract for select builders in the same state agree — both succeed
/// with character-identical text, or both fail with the same message.
pub proof fn lemma_select_deterministic(
    v: SelectView,
    r1: Result<String, Error>,
    r2: Result<String, Error>,
)
    requires
        crate::reflects(select_result(v), r1),
        crate::reflects(select_result(v), r2),
    ensures
        r1 is Ok <==> r2 is Ok,
        r1 is Ok ==> r1->Ok_0@ == r2->Ok_0@,
        r1 is Err ==> r1->Err_0@ == r2->Err_0@,
{
    if select_result(v) is Ok {
        assert(r1 is Ok && r2 is Ok);
    } else {
        assert(r1 is Err && r2 is Err);
    }
}

/// A missing table is enforced: a select builder whose table was never set
/// compiles to the error naming the `table` field, never to text.
pub proof fn lemma_select_requires_table(v: SelectView)
    requires
        v.table is None,
    ensures
        select_result(v) == Err::<Seq<char>, _>(unset_message("table"@)),
{
}

} // verus!
