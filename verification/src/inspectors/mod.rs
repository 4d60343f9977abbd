//! Read-only projections of the trees, for inspection.

pub mod dot;
