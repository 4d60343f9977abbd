//! The typed intermediate representation.

pub mod ctype;
pub mod duplicate;
pub mod expr;
pub mod stmt;
pub mod table;
