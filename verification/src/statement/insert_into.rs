//! The `INSERT INTO` statement.

use vstd::prelude::*;

use crate::buffer::quote;
use crate::buffer::unset_error;
use crate::buffer::Buffer;
use crate::statement::Statement;
use crate::text::joined;
use crate::text::placeholder_group;
use crate::text::placeholders;
use crate::text::quoted;
use crate::text::repeated;
use crate::text::unset_message;
use crate::Error;

verus! {

/// An `INSERT INTO` statement.
pub struct InsertInto {
    columns: Option<Vec<String>>,
    multiplex: Option<usize>,
    table: Option<String>,
}

/// The abstract state of an insert statement.
pub struct InsertView {
    pub columns: Option<Seq<Seq<char>>>,
    pub multiplex: Option<usize>,
    pub table: Option<Seq<char>>,
}

impl View for InsertInto {
    type V = InsertView;

    closed spec fn view(&self) -> InsertView {
        insert_view(&self.columns, &self.multiplex, &self.table)
    }
}

/// The abstract state assembled from an insert statement's fields.
pub open spec fn insert_view(
    columns: &Option<Vec<String>>,
    multiplex: &Option<usize>,
    table: &Option<String>,
) -> InsertView {
    InsertView {
        columns: match columns {
            Some(columns) => Some(columns@.map_values(|c: String| c@)),
            None => None,
        },
        multiplex: *multiplex,
        table: match table {
            Some(table) => Some(table@),
            None => None,
        },
    }
}

/// How many value groups the statement compiles to: the multiplex count,
/// one when it was never set.
pub open spec fn multiplex_count(multiplex: Option<usize>) -> nat {
    match multiplex {
        Some(m) => m as nat,
        None => 1,
    }
}

/// The column list and placeholder groups of an insert statement.
pub open spec fn values_clause(cols: Seq<Seq<char>>, m: nat) -> Seq<char> {
    "("@ + joined(cols.map_values(|c: Seq<char>| quoted(c)), ", "@) + ") VALUES "@ + joined(
        repeated(placeholder_group(cols.len()), m),
        ", "@,
    )
}

/// The outcome of compiling an insert statement: the statement text, or the
/// message naming the first required field found unset.  The table name is
/// examined first, then the presence of the column list.
pub open spec fn insert_result(v: InsertView) -> Result<Seq<char>, Seq<char>> {
    match v.table {
        None => Err(unset_message("table"@)),
        Some(table) => match v.columns {
            None => Err(unset_message("columns"@)),
            Some(cols) => Ok(
                joined(
                    seq![
                        "INSERT INTO"@,
                        quoted(table),
                        values_clause(cols, multiplex_count(v.multiplex)),
                    ],
                    " "@,
                ),
            ),
        },
    }
}

/// Compile an insert statement from its fields.
pub(crate) fn compile_insert(
    columns: Option<Vec<String>>,
    multiplex: Option<usize>,
    table: Option<String>,
) -> (r: Result<String, Error>)
    ensures
        crate::reflects(insert_result(insert_view(&columns, &multiplex, &table)), r),
{
    let ghost v = insert_view(&columns, &multiplex, &table);
    let mut buffer = Buffer::new();
    buffer.push(String::from_str("INSERT INTO"));
    let table = match table {
        Some(table) => table,
        None => {
            return Err(unset_error("table"));
        },
    };
    buffer.push(quote(table.as_str()));
    let cols = match columns {
        Some(cols) => cols,
        None => {
            return Err(unset_error("columns"));
        },
    };
    let ghost cviews = cols@.map_values(|c: String| c@);
    let ghost quoted_views = cviews.map_values(|c: Seq<char>| quoted(c));
    let mut names = Buffer::new();
    let n = cols.len();
    let mut i: usize = 0;
    while i < n
        invariant
            i <= n,
            n == cols.len(),
            cviews == cols@.map_values(|c: String| c@),
            quoted_views == cviews.map_values(|c: Seq<char>| quoted(c)),
            names@ == quoted_views.take(i as int),
        decreases n - i,
    {
        names.push(quote(cols[i].as_str()));
        proof {
            assert(names@ =~= quoted_views.take(i as int + 1));
        }
        i += 1;
    }
    proof {
        assert(quoted_views.take(n as int) =~= quoted_views);
    }
    let mut marks = Buffer::new();
    let mut j: usize = 0;
    while j < n
        invariant
            j <= n,
            marks@ == placeholders(j as nat),
        decreases n - j,
    {
        marks.push(String::from_str("?"));
        proof {
            assert(marks@ =~= placeholders(j as nat + 1));
        }
        j += 1;
    }
    let mut group = String::from_str("(");
    group.append(marks.join(", ").as_str());
    group.append(")");
    proof {
        assert(group@ == placeholder_group(n as nat));
        assert(n as nat == cviews.len());
    }
    let m = match multiplex {
        Some(m) => m,
        None => 1,
    };
    proof {
        assert(m as nat == multiplex_count(v.multiplex));
    }
    let mut groups = Buffer::new();
    let mut k: usize = 0;
    while k < m
        invariant
            k <= m,
            groups@ == repeated(group@, k as nat),
        decreases m - k,
    {
        groups.push(group.clone());
        proof {
            assert(groups@ =~= repeated(group@, k as nat + 1));
        }
        k += 1;
    }
    let mut piece = String::from_str("(");
    piece.append(names.join(", ").as_str());
    piece.append(") VALUES ");
    piece.append(groups.join(", ").as_str());
    buffer.push(piece);
    proof {
        assert(piece@ == values_clause(cviews, multiplex_count(v.multiplex)));
        assert(buffer@ =~= seq![
            "INSERT INTO"@,
            quoted(table@),
            values_clause(cviews, multiplex_count(v.multiplex)),
        ]);
    }
    Ok(buffer.join(" "))
}

impl InsertInto {
    /// Create a statement with no field set.
    pub fn new() -> (r: Self)
        ensures
            r@.columns is None,
            r@.multiplex is None,
            r@.table is None,
    {
        InsertInto { columns: None, multiplex: None, table: None }
    }

    /// Append a column name.
    pub fn column(self, value: &str) -> (r: Self)
        ensures
            r@.columns == Some(
                match self@.columns {
                    Some(cols) => cols.push(value@),
                    None => seq![value@],
                },
            ),
            r@.multiplex == self@.multiplex,
            r@.table == self@.table,
    {
        let InsertInto { columns, multiplex, table } = self;
        let ghost before = insert_view(&columns, &multiplex, &table);
        let mut cols = match columns {
            Some(cols) => cols,
            None => Vec::new(),
        };
        cols.push(value.to_owned());
        let r = InsertInto { columns: Some(cols), multiplex, table };
        proof {
            let f = |c: String| c@;
            match before.columns {
                Some(old_cols) => {
                    assert(cols@.map_values(f) =~= old_cols.push(value@));
                },
                None => {
                    assert(cols@.map_values(f) =~= seq![value@]);
                },
            }
        }
        r
    }

    /// Extend the statement for inserting multiple rows at once.
    pub fn multiplex(self, value: usize) -> (r: Self)
        ensures
            r@ == (InsertView { multiplex: Some(value), ..self@ }),
    {
        InsertInto { multiplex: Some(value), ..self }
    }

    /// Set the table.
    pub fn table(self, value: &str) -> (r: Self)
        ensures
            r@ == (InsertView { table: Some(value@), ..self@ }),
    {
        InsertInto { table: Some(value.to_owned()), ..self }
    }
}

impl Statement for InsertInto {
    open spec fn spec_compile(&self) -> Result<Seq<char>, Seq<char>> {
        insert_result(self@)
    }

    fn compile(self) -> (r: Result<String, Error>) {
        let InsertInto { columns, multiplex, table } = self;
        compile_insert(columns, multiplex, table)
    }
}

/// Compilation is deterministic: any two results that satisfy the compile
/// contract for insert builders in the same state agree — both succeed
/// with character-identical text, or both fail with the same message.
pub proof fn lemma_insert_deterministic(
    v: InsertView,
    r1: Result<String, Error>,
    r2: Result<String, Error>,
)
    requires
        crate::reflects(insert_result(v), r1),
        crate::reflects(insert_result(v), r2),
    ensures
        r1 is Ok <==> r2 is Ok,
        r1 is Ok ==> r1->Ok_0@ == r2->Ok_0@,
        r1 is Err ==> r1->Err_0@ == r2->Err_0@,
{
    if insert_result(v) is Ok {
        assert(r1 is Ok && r2 is Ok);
    } else {
        assert(r1 is Err && r2 is Err);
    }
}

/// A missing table is enforced: an insert builder whose table was never set
/// compiles to the error naming the `table` field, never to text.
pub proof fn lemma_insert_requires_table(v: InsertView)
    requires
        v.table is None,
    ensures
        insert_result(v) == Err::<Seq<char>, _>(unset_message("table"@)),
{
}

} // verus!
