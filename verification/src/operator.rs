//! Operators of the source language.

use vstd::prelude::*;

verus! {

/// Unary operators. `Not` is bitwise complement on an integer operand and
/// logical negation on a boolean operand.
#[derive(Debug, Copy, Clone, PartialEq, Eq, Structural)]
pub enum UnaryOperator {
    Not,
}

/// Binary operators. `Add` through `Mod` produce an integer from two
/// integers; `And`, `Or` and `Xor` are bitwise; `Equal` through `Gte`
/// compare two integers and produce a boolean.
#[derive(Debug, Copy, Clone, PartialEq, Eq, Structural)]
pub enum BinaryOperator {
    Add,
    Sub,
    Mul,
    Div,
    Mod,

    And,
    Or,
    Xor,

    Equal,
    NotEqual,

    Lt,
    Lte,
    Gt,
    Gte,
}

} // verus!
