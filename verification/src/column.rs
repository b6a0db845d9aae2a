//! Columns and the values they hold.

use vstd::prelude::*;

verus! {

/// A column type.
#[derive(Clone, Copy, Debug, PartialEq, Eq, Structural)]
pub enum Type {
    /// The binary type.
    Binary,
    /// The floating-point type.
    Float,
    /// The integer type.
    Integer,
    /// The string type.
    String,
}

/// A column: a name together with the type of the values it stores.
#[derive(Debug, PartialEq)]
pub struct Column {
    /// The name.
    pub name: String,
    /// The type.
    pub kind: Type,
}

/// The abstract value of a column: its name as a sequence of characters,
/// and its type.
pub struct ColumnView {
    pub name: Seq<char>,
    pub kind: Type,
}

impl View for Column {
    type V = ColumnView;

    open spec fn view(&self) -> ColumnView {
        ColumnView { name: self.name@, kind: self.kind }
    }
}

/// A typed value, as bound to or read from a statement.
///
/// A floating-point value is carried as the bit pattern of its IEEE-754
/// double-precision representation; a driver converts at the boundary.
#[derive(Clone, Debug, PartialEq)]
pub enum Value {
    /// Binary data.
    Binary(Vec<u8>),
    /// The bits of a floating-point number.
    Float(u64),
    /// An integer.
    Integer(i64),
    /// A string.
    String(String),
}

} // verus!
