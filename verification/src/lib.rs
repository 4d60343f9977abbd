//! Semantic core of a front end for a small subset of C: a constant-folding
//! pass over the syntax tree and the lowering of that tree into a typed
//! intermediate representation.

pub mod ast;
pub mod ast_duplicate;
pub mod diagnostic;
pub mod inspectors;
pub mod ir;
pub mod passes;
pub mod settings;
