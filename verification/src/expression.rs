//! Expressions as the rewriting sees them, and the calls it emits.
//!
//! The rewriting looks at the outermost shape of an expression only. Operands
//! and target types are carried through as they are, whatever they hold, so
//! both are type parameters: `E` for an operand, `T` for a target type.

use crate::operator::{BinaryOperator, Operator, UnaryOperator};
use vstd::prelude::*;

verus! {

/// The outermost shape of an expression.
#[allow(inconsistent_fields)]
#[derive(Clone, Debug, PartialEq, Eq)]
pub enum Expression<E, T> {
    /// `left operator right`
    Binary { left: E, operator: BinaryOperator, right: E },
    /// `operand as target`
    Cast { operand: E, target: T },
    /// `operator operand`
    Unary { operator: UnaryOperator, operand: E },
    /// Anything else: a literal, an identifier, a call, a field access.
    Other,
}

impl<E, T> Expression<E, T> {
    /// The operator that the expression is built around, if it has one.
    pub open spec fn operator(self) -> Option<Operator> {
        match self {
            Expression::Binary { operator, .. } => Some(Operator::Binary(operator)),
            Expression::Cast { .. } => Some(Operator::Cast),
            Expression::Unary { operator, .. } => Some(Operator::Unary(operator)),
            Expression::Other => None,
        }
    }

    /// The operands of the expression, from left to right.
    pub open spec fn operands(self) -> Seq<E> {
        match self {
            Expression::Binary { left, right, .. } => seq![left, right],
            Expression::Cast { operand, .. } => seq![operand],
            Expression::Unary { operand, .. } => seq![operand],
            Expression::Other => Seq::empty(),
        }
    }

    /// The type that a cast names.
    pub open spec fn target(self) -> Option<T> {
        match self {
            Expression::Cast { target, .. } => Some(target),
            _ => None,
        }
    }
}

/// A call as contracts see it.
pub struct CallView<E, T> {
    /// The name of the trait that declares the method.
    pub trait_name: Seq<char>,
    /// The name of the method.
    pub method_name: Seq<char>,
    /// The type parameter of the trait.
    pub generic: Option<T>,
    /// The arguments, from left to right.
    pub arguments: Seq<E>,
}

/// A call of a trait's method by its path: `Trait::method(arguments)`, or
/// `Trait::<Generic>::method(arguments)` where the trait has a type parameter.
#[derive(Clone, Debug, PartialEq, Eq)]
pub struct Call<E, T> {
    /// The name of the trait that declares the method.
    pub trait_name: String,
    /// The name of the method.
    pub method_name: String,
    /// The type parameter of the trait, where it has one.
    pub generic: Option<T>,
    /// The arguments, from left to right.
    pub arguments: Vec<E>,
}

impl<E, T> View for Call<E, T> {
    type V = CallView<E, T>;

    open spec fn view(&self) -> CallView<E, T> {
        CallView {
            trait_name: self.trait_name@,
            method_name: self.method_name@,
            generic: self.generic,
            arguments: self.arguments@,
        }
    }
}

/// A message about an expression, with the place of that expression.
#[derive(Clone, Debug, PartialEq, Eq)]
pub struct Diagnostic<L> {
    /// What is wrong.
    pub message: &'static str,
    /// Where the expression stands.
    pub location: L,
}

/// What takes the place of an expression: a call, or an inert marker that
/// reports why there is none.
#[derive(Clone, Debug, PartialEq, Eq)]
pub enum Expansion<E, T, L> {
    /// The call that the expression was rewritten into.
    Call(Call<E, T>),
    /// The expression could not be rewritten.
    CompileError(Diagnostic<L>),
}

} // verus!
