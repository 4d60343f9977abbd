//! The passes over the syntax tree.

pub mod const_fold;
pub mod const_fold_lemmas;
pub mod lower_ast;
