//! The closed set of reasons an arithmetic expression can be inadmissible.

use vstd::prelude::*;

verus! {

/// The kind of failure that makes an arithmetic expression inadmissible.
#[derive(Debug, Clone, Copy, PartialEq, Eq, Structural)]
pub enum ErrorKind {
    /// The expression is mathematically undefined (division by zero).
    ArithmeticViolation,
    /// The operator symbol is outside the supported set.
    InvalidOperator,
    /// The expression is defined but excluded by the domain's value
    /// constraints (negative or fractional result).
    UnsupportedExpression,
}

} // verus!
