//! Errors of the middle stage. All three abort the current compilation
//! unit: no partial output is valid after any of them.

use vstd::prelude::*;

verus! {

/// Why folding or lowering a compilation unit failed.
#[derive(Debug, Copy, Clone, PartialEq, Eq, Structural)]
pub enum CompileError {
    /// An identifier resolves to no declaration in the current scope or in
    /// any enclosing scope. A correct semantic checker rejects such input
    /// earlier; the lowerer still fails loudly rather than substitute a
    /// default storage location.
    UnresolvedIdentifier,
    /// An AST or type form that this stage does not lower: unary operators,
    /// assignment targets other than an identifier, and declared types
    /// other than `Int` and `Bool`.
    UnimplementedFeature,
    /// Constant folding met a division or remainder by zero.
    ArithmeticError,
}

} // verus!
