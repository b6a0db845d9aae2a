//! Reexports of functions, traits, and types.

pub use crate::column::Column;
pub use crate::column::Type;
pub use crate::column::Value;
pub use crate::database::Database;
pub use crate::driver::Driver;
pub use crate::driver::Prepared;
pub use crate::language::column;
pub use crate::language::create_table;
pub use crate::language::insert_into;
pub use crate::language::select;
pub use crate::statement::Statement;
pub use crate::table::Table;
pub use crate::writer::Writer;
pub use crate::Error;
