//! The finished symbol table that travels with the intermediate
//! representation.

use vstd::prelude::*;
use crate::ast::Span;
use crate::ir::ctype::CType;

verus! {

/// The id of a declared item: its index in the table, never reused.
pub type ItemId = usize;

/// What the table records of a declared variable.
#[derive(Debug, PartialEq, Eq)]
pub struct Item {
    pub ty: CType,
    pub is_const: bool,
    /// The identifier of the declaration.
    pub original_span: Span,
    /// Whether the declaration has an initializer.
    pub initialized: bool,
}

/// An item that stands for a variable.
pub type VariableItem = Item;

/// Every item declared in a compilation unit, indexed by id.
#[derive(Debug, PartialEq, Eq)]
pub struct Table<T> {
    pub items: Vec<T>,
}

impl<T> Table<T> {
    /// The mathematical view.
    pub open spec fn view(&self) -> Seq<T> {
        self.items@
    }

    /// The number of items.
    pub fn len(&self) -> (r: usize)
        ensures
            r == self@.len(),
    {
        self.items.len()
    }

    /// The item with the given id.
    pub fn get(&self, id: ItemId) -> (r: &T)
        requires
            id < self@.len(),
        ensures
            *r == self@[id as int],
    {
        &self.items[id]
    }
}

} // verus!
