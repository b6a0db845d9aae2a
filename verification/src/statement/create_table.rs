//! The `CREATE TABLE` statement.

use vstd::prelude::*;

use crate::buffer::quote;
use crate::buffer::unset_error;
use crate::buffer::Buffer;
use crate::column::Type;
use crate::statement::Statement;
use crate::text::joined;
use crate::text::kind_keyword;
use crate::text::quoted;
use crate::text::unset_message;
use crate::Error;

verus! {

/// A column description: a name and a type, both optional until compilation.
pub struct CreateColumn {
    name: Option<String>,
    kind: Option<Type>,
}

/// The abstract state of a column description.
pub struct CreateColumnView {
    pub name: Option<Seq<char>>,
    pub kind: Option<Type>,
}

impl View for CreateColumn {
    type V = CreateColumnView;

    closed spec fn view(&self) -> CreateColumnView {
        CreateColumnView {
            name: match self.name {
                Some(name) => Some(name@),
                None => None,
            },
            kind: self.kind,
        }
    }
}

/// A `CREATE TABLE` statement.
pub struct CreateTable {
    columns: Option<Vec<CreateColumn>>,
    if_not_exists: bool,
    name: Option<String>,
}

/// The abstract state of a `CREATE TABLE` statement.
pub struct CreateTableView {
    pub columns: Option<Seq<CreateColumnView>>,
    pub if_not_exists: bool,
    pub name: Option<Seq<char>>,
}

impl View for CreateTable {
    type V = CreateTableView;

    closed spec fn view(&self) -> CreateTableView {
        CreateTableView {
            columns: match self.columns {
                Some(columns) => Some(columns@.map_values(|c: CreateColumn| c@)),
                None => None,
            },
            if_not_exists: self.if_not_exists,
            name: match self.name {
                Some(name) => Some(name@),
                None => None,
            },
        }
    }
}

/// The outcome of compiling one column description: its definition text, or
/// the message naming the first field found unset (the type is examined
/// before the name).
pub open spec fn column_def_result(c: CreateColumnView) -> Result<Seq<char>, Seq<char>> {
    match c.kind {
        None => Err(unset_message("kind"@)),
        Some(kind) => match c.name {
            None => Err(unset_message("name"@)),
            Some(name) => Ok(quoted(name) + " "@ + kind_keyword(kind)),
        },
    }
}

/// The outcome of compiling a list of column descriptions, in order: the
/// definition texts, or the message of the first description that fails.
pub open spec fn column_defs_result(cols: Seq<CreateColumnView>) -> Result<
    Seq<Seq<char>>,
    Seq<char>,
>
    decreases cols.len(),
{
    if cols.len() == 0 {
        Ok(Seq::empty())
    } else {
        match column_defs_result(cols.drop_last()) {
            Err(message) => Err(message),
            Ok(defs) => match column_def_result(cols.last()) {
                Err(message) => Err(message),
                Ok(def) => Ok(defs.push(def)),
            },
        }
    }
}

/// The leading keywords of the statement.
pub open spec fn create_table_header(if_not_exists: bool) -> Seq<Seq<char>> {
    if if_not_exists {
        seq!["CREATE TABLE"@, "IF NOT EXISTS"@]
    } else {
        seq!["CREATE TABLE"@]
    }
}

/// The outcome of compiling a `CREATE TABLE` statement: the statement text,
/// or the message naming the first required field found unset.  The table
/// name is examined first, then the presence of the column list, then each
/// column in insertion order.
pub open spec fn create_table_result(v: CreateTableView) -> Result<Seq<char>, Seq<char>> {
    match v.name {
        None => Err(unset_message("name"@)),
        Some(name) => match v.columns {
            None => Err(unset_message("columns"@)),
            Some(cols) => match column_defs_result(cols) {
                Err(message) => Err(message),
                Ok(defs) => Ok(
                    joined(
                        create_table_header(v.if_not_exists) + seq![
                            quoted(name),
                            "("@ + joined(defs, ", "@) + ")"@,
                        ],
                        " "@,
                    ),
                ),
            },
        },
    }
}

/// The table builder with one more column description appended.
pub open spec fn with_column_view(v: CreateTableView, c: CreateColumnView) -> CreateTableView {
    CreateTableView {
        columns: Some(
            match v.columns {
                Some(cols) => cols.push(c),
                None => seq![c],
            },
        ),
        ..v
    }
}

/// A column description with no field set.
pub closed spec fn blank_column() -> CreateColumn {
    CreateColumn { name: None, kind: None }
}

/// The blank description handed to a column-building function has no field
/// set.
pub proof fn lemma_blank_column()
    ensures
        blank_column()@.name is None,
        blank_column()@.kind is None,
{
}

/// The abstract state assembled from a column description's fields.
pub open spec fn column_view(name: &Option<String>, kind: &Option<Type>) -> CreateColumnView {
    CreateColumnView {
        name: match name {
            Some(name) => Some(name@),
            None => None,
        },
        kind: *kind,
    }
}

/// Compile a column description from its fields: the quoted name followed by
/// the type's keyword, or the message naming the first field found unset
/// (the type is examined before the name).
pub(crate) fn column_def_text(name: &Option<String>, kind: &Option<Type>) -> (r: Result<
    String,
    Error,
>)
    ensures
        crate::reflects(column_def_result(column_view(name, kind)), r),
{
    let kind = match kind {
        Some(kind) => *kind,
        None => {
            return Err(unset_error("kind"));
        },
    };
    let name = match name {
        Some(name) => name,
        None => {
            return Err(unset_error("name"));
        },
    };
    let mut def = quote(name.as_str());
    def.append(" ");
    def.append(kind_str(kind));
    Ok(def)
}

/// Unrolls `column_defs_result` by one description at the end of a prefix.
proof fn lemma_defs_step(cols: Seq<CreateColumnView>, i: int)
    requires
        0 <= i < cols.len(),
    ensures
        column_defs_result(cols.take(i + 1)) == match column_defs_result(cols.take(i)) {
            Err(message) => Err(message),
            Ok(defs) => match column_def_result(cols[i]) {
                Err(message) => Err(message),
                Ok(def) => Ok(defs.push(def)),
            },
        },
{
    assert(cols.take(i + 1).drop_last() =~= cols.take(i));
    assert(cols.take(i + 1).last() == cols[i]);
}

/// A failing prefix decides the whole list: once some prefix of the column
/// list fails to compile, the full list fails with the same message.
proof fn lemma_defs_err_extends(cols: Seq<CreateColumnView>, j: int)
    requires
        0 < j <= cols.len(),
        column_defs_result(cols.take(j)) is Err,
    ensures
        column_defs_result(cols) == column_defs_result(cols.take(j)),
    decreases cols.len() - j,
{
    if j == cols.len() {
        assert(cols.take(j) =~= cols);
    } else {
        assert(cols.take(j + 1).drop_last() =~= cols.take(j));
        lemma_defs_err_extends(cols, j + 1);
    }
}

impl CreateColumn {
    /// A description with no field set.
    pub(crate) fn empty() -> (r: CreateColumn)
        ensures
            r == blank_column(),
            r@.name is None,
            r@.kind is None,
    {
        CreateColumn { name: None, kind: None }
    }

    /// Set the name.
    pub fn name(self, value: &str) -> (r: Self)
        ensures
            r@.name == Some(value@),
            r@.kind == self@.kind,
    {
        CreateColumn { name: Some(value.to_owned()), ..self }
    }

    /// Set the type.
    pub fn kind(self, value: Type) -> (r: Self)
        ensures
            r@.kind == Some(value),
            r@.name == self@.name,
    {
        CreateColumn { kind: Some(value), ..self }
    }

    /// Compile the description to its definition text.
    pub(crate) fn compile_def(&self) -> (r: Result<String, Error>)
        ensures
            crate::reflects(column_def_result(self@), r),
    {
        column_def_text(&self.name, &self.kind)
    }
}

impl Statement for CreateColumn {
    open spec fn spec_compile(&self) -> Result<Seq<char>, Seq<char>> {
        column_def_result(self@)
    }

    fn compile(self) -> (r: Result<String, Error>) {
        self.compile_def()
    }
}

/// The keyword a column type compiles to.
fn kind_str(kind: Type) -> (r: &'static str)
    ensures
        r@ == kind_keyword(kind),
{
    match kind {
        Type::Binary => "BLOB",
        Type::Float => "REAL",
        Type::Integer => "INTEGER",
        Type::String => "TEXT",
    }
}

impl CreateTable {
    /// Create a statement with no field set.
    pub fn new() -> (r: Self)
        ensures
            r@.columns is None,
            r@.name is None,
            !r@.if_not_exists,
    {
        CreateTable { columns: None, if_not_exists: false, name: None }
    }

    /// Append a column description, built by the given function from a
    /// description with no field set.
    pub fn column<F: FnOnce(CreateColumn) -> CreateColumn>(self, build: F) -> (r: Self)
        requires
            call_requires(build, (blank_column(),)),
        ensures
            exists|c: CreateColumn|
                #[trigger] call_ensures(build, (blank_column(),), c) && r@ == with_column_view(
                    self@,
                    c@,
                ),
    {
        let built = build(CreateColumn { name: None, kind: None });
        self.with_column(built)
    }

    /// Append an already-built column description.
    pub(crate) fn with_column(self, column: CreateColumn) -> (r: Self)
        ensures
            r@ == with_column_view(self@, column@),
    {
        let ghost v = self@;
        let CreateTable { columns, if_not_exists, name } = self;
        let mut cols = match columns {
            Some(cols) => cols,
            None => Vec::new(),
        };
        cols.push(column);
        let r = CreateTable { columns: Some(cols), if_not_exists, name };
        proof {
            let f = |c: CreateColumn| c@;
            match v.columns {
                Some(old_cols) => {
                    assert(cols@.map_values(f) =~= old_cols.push(column@));
                },
                None => {
                    assert(cols@.map_values(f) =~= seq![column@]);
                },
            }
        }
        r
    }

    /// Mark as applicable only if the table does not exist.
    pub fn if_not_exists(self) -> (r: Self)
        ensures
            r@ == (CreateTableView { if_not_exists: true, ..self@ }),
    {
        CreateTable { if_not_exists: true, ..self }
    }

    /// Set the name.
    pub fn name(self, value: &str) -> (r: Self)
        ensures
            r@ == (CreateTableView { name: Some(value@), ..self@ }),
    {
        CreateTable { name: Some(value.to_owned()), ..self }
    }
}

/// Compile every column description in order, joining the definition texts
/// with `, `, or report the message of the first description that fails.
fn defs_text(cols: &Vec<CreateColumn>) -> (r: Result<String, Error>)
    ensures
        match (column_defs_result(cols@.map_values(|c: CreateColumn| c@)), r) {
            (Ok(defs), Ok(s)) => s@ == joined(defs, ", "@),
            (Err(message), Err(e)) => e@ == message,
            _ => false,
        },
{
    let ghost cviews = cols@.map_values(|c: CreateColumn| c@);
    let mut defs = Buffer::new();
    let n = cols.len();
    let mut i: usize = 0;
    while i < n
        invariant
            i <= n,
            n == cols.len(),
            cviews == cols@.map_values(|c: CreateColumn| c@),
            column_defs_result(cviews.take(i as int)) == Ok::<_, Seq<char>>(defs@),
        decreases n - i,
    {
        proof {
            lemma_defs_step(cviews, i as int);
        }
        match cols[i].compile_def() {
            Ok(def) => {
                defs.push(def);
            },
            Err(e) => {
                proof {
                    assert(cviews[i as int] == cols@[i as int]@);
                    lemma_defs_err_extends(cviews, i as int + 1);
                }
                return Err(e);
            },
        }
        i += 1;
    }
    proof {
        assert(cviews.take(n as int) =~= cviews);
    }
    Ok(defs.join(", "))
}

impl Statement for CreateTable {
    open spec fn spec_compile(&self) -> Result<Seq<char>, Seq<char>> {
        create_table_result(self@)
    }

    fn compile(self) -> (r: Result<String, Error>) {
        let ghost v = self@;
        let CreateTable { columns, if_not_exists, name } = self;
        let mut buffer = Buffer::new();
        buffer.push(String::from_str("CREATE TABLE"));
        if if_not_exists {
            buffer.push(String::from_str("IF NOT EXISTS"));
        }
        let name = match name {
            Some(name) => name,
            None => {
                return Err(unset_error("name"));
            },
        };
        buffer.push(quote(name.as_str()));
        let cols = match columns {
            Some(cols) => cols,
            None => {
                return Err(unset_error("columns"));
            },
        };
        let ghost def_texts = match column_defs_result(cols@.map_values(|c: CreateColumn| c@)) {
            Ok(defs) => defs,
            Err(message) => Seq::empty(),
        };
        let inner = match defs_text(&cols) {
            Ok(inner) => inner,
            Err(e) => {
                return Err(e);
            },
        };
        let mut body = String::from_str("(");
        body.append(inner.as_str());
        body.append(")");
        buffer.push(body);
        proof {
            if v.if_not_exists {
                assert(buffer@ =~= create_table_header(true) + seq![
                    quoted(name@),
                    "("@ + joined(def_texts, ", "@) + ")"@,
                ]);
            } else {
                assert(buffer@ =~= create_table_header(false) + seq![
                    quoted(name@),
                    "("@ + joined(def_texts, ", "@) + ")"@,
                ]);
            }
        }
        Ok(buffer.join(" "))
    }
}

/// Compilation is deterministic: any two results that satisfy the compile
/// contract for `CREATE TABLE` builders in the same state agree — both
/// succeed with character-identical text, or both fail with the same
/// message.
pub proof fn lemma_create_table_deterministic(
    v: CreateTableView,
    r1: Result<String, Error>,
    r2: Result<String, Error>,
)
    requires
        crate::reflects(create_table_result(v), r1),
        crate::reflects(create_table_result(v), r2),
    ensures
        r1 is Ok <==> r2 is Ok,
        r1 is Ok ==> r1->Ok_0@ == r2->Ok_0@,
        r1 is Err ==> r1->Err_0@ == r2->Err_0@,
{
    if create_table_result(v) is Ok {
        assert(r1 is Ok && r2 is Ok);
    } else {
        assert(r1 is Err && r2 is Err);
    }
}

/// A missing name is enforced: a `CREATE TABLE` builder whose name was never
/// set compiles to the error naming the `name` field, never to text.
pub proof fn lemma_create_table_requires_name(v: CreateTableView)
    requires
        v.name is None,
    ensures
        create_table_result(v) == Err::<Seq<char>, _>(unset_message("name"@)),
{
}

} // verus!
