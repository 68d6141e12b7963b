//! Operator precedence levels, lowest binding power first.
use vstd::prelude::*;

verus! {

/// Precedence levels for a Pratt-style expression parser, from none up to
/// primary expressions. Declaration order gives the binding strength.
#[derive(Copy, Clone, Debug, PartialEq, Eq, Structural)]
pub enum Precedence {
    Lowest,
    Assignment,
    Or,
    And,
    Equality,
    Comparison,
    Term,
    Factor,
    Unary,
    Call,
    Primary,
}

} // verus!
