//! Overflow-aware arithmetic by rewriting.
//!
//! An arithmetic expression such as `a + b`, `a as T` or `-a` is rewritten into
//! an explicit call of one of four families of methods: checked, saturating,
//! wrapping and encapsulating. The rewriting only names the call; it never
//! computes a number.
//!
//! The four functions of this module are the entry points, one per mode.

use crate::expression::{Expansion, Expression};
use crate::implementation::{expands_to, implementation};
use crate::mode::{checked_mode, encapsulating_mode, saturating_mode, wrapping_mode, Mode};
use vstd::prelude::*;

pub mod encapsulating;
pub mod expression;
pub mod implementation;
pub mod laws;
pub mod mode;
pub mod operator;
pub mod saturating;
pub mod text;
pub mod util;
pub mod wrapping;

verus! {

/// Rewrites an expression into checked arithmetic.
pub fn checked<E, T, L>(expression: Expression<E, T>, location: L) -> (expansion: Expansion<
    E,
    T,
    L,
>)
    ensures
        expands_to(expansion, expression, location, checked_mode()),
{
    implementation(expression, location, &Mode::checked())
}

/// Rewrites an expression into encapsulating arithmetic.
pub fn encapsulating<E, T, L>(expression: Expression<E, T>, location: L) -> (expansion: Expansion<
    E,
    T,
    L,
>)
    ensures
        expands_to(expansion, expression, location, encapsulating_mode()),
{
    implementation(expression, location, &Mode::encapsulating())
}

/// Rewrites an expression into saturating arithmetic.
pub fn saturating<E, T, L>(expression: Expression<E, T>, location: L) -> (expansion: Expansion<
    E,
    T,
    L,
>)
    ensures
        expands_to(expansion, expression, location, saturating_mode()),
{
    implementation(expression, location, &Mode::saturating())
}

/// Rewrites an expression into wrapping arithmetic.
pub fn wrapping<E, T, L>(expression: Expression<E, T>, location: L) -> (expansion: Expansion<
    E,
    T,
    L,
>)
    ensures
        expands_to(expansion, expression, location, wrapping_mode()),
{
    implementation(expression, location, &Mode::wrapping())
}

} // verus!
