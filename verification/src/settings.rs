//! The target profile that the widths of the arithmetic types are read from.

use vstd::prelude::*;

verus! {

/// A target data model.
#[derive(Debug, Clone, Copy, PartialEq, Eq, Structural)]
pub enum Target {
    /// LP64: 32-bit `int`, 64-bit `long`.
    X86_64,
    /// ILP32: 32-bit `int` and `long`.
    X86,
    /// 16-bit `int`, 32-bit `long`.
    Avr,
}

/// The settings of one compilation; immutable while a unit is lowered.
#[derive(Debug, Clone, Copy, PartialEq, Eq, Structural)]
pub struct Settings {
    pub target: Target,
}

} // verus!
