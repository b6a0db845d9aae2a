//! Descriptions: parts of a statement that compile on their own.

use vstd::prelude::*;

use crate::column::Type;
use crate::language::definition::Definition;
use crate::statement::create_table::column_def_result;
use crate::statement::create_table::column_def_text;
use crate::statement::create_table::column_view;
use crate::statement::create_table::CreateColumnView;
use crate::Error;

verus! {

/// A description.
///
/// Compiling a description consumes it and yields its text, or the message
/// naming the first required field found unset.
pub trait Description: Sized {
    /// The specified outcome of compiling this description.
    spec fn spec_compile(&self) -> Result<Seq<char>, Seq<char>>;

    /// Compile the description.
    fn compile(self) -> (r: Result<String, Error>)
        ensures
            crate::reflects(self.spec_compile(), r),
    ;
}

/// A column description: a name and a type, both optional until compilation.
pub struct Column {
    name: Option<String>,
    kind: Option<Type>,
}

impl View for Column {
    type V = CreateColumnView;

    closed spec fn view(&self) -> CreateColumnView {
        column_view(&self.name, &self.kind)
    }
}

impl Column {
    /// Create a description with no field set.
    pub fn new() -> (r: Column)
        ensures
            r@.name is None,
            r@.kind is None,
    {
        Column { name: None, kind: None }
    }

    /// Set the name.
    pub fn name(self, value: &str) -> (r: Self)
        ensures
            r@.name == Some(value@),
            r@.kind == self@.kind,
    {
        Column { name: Some(value.to_owned()), ..self }
    }

    /// Set the type.
    pub fn kind(self, value: Type) -> (r: Self)
        ensures
            r@.kind == Some(value),
            r@.name == self@.name,
    {
        Column { kind: Some(value), ..self }
    }
}

impl Description for Column {
    open spec fn spec_compile(&self) -> Result<Seq<char>, Seq<char>> {
        column_def_result(self@)
    }

    fn compile(self) -> (r: Result<String, Error>) {
        column_def_text(&self.name, &self.kind)
    }
}

impl Definition for Column {
    open spec fn spec_compile(&self) -> Result<Seq<char>, Seq<char>> {
        column_def_result(self@)
    }

    fn compile(&self) -> (r: Result<String, Error>) {
        column_def_text(&self.name, &self.kind)
    }
}

} // verus!
