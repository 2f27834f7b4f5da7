//! A rewriting for wrapping arithmetic alone, with a diagnostic of its own for
//! each way in which an expression can fail.
//!
//! It differs from the wrapping mode of the general rewriting in two points: it
//! rewrites casts, and it says what was wrong.

use crate::expression::{Call, CallView, Diagnostic, Expansion, Expression};
use crate::operator::{BinaryOperator, UnaryOperator};
use crate::util::{method_name, method_name_of, trait_name, trait_name_of};
use vstd::prelude::*;

verus! {

/// The diagnostic for a binary operator that has no wrapping method.
pub const UNSUPPORTED_BINARY: &'static str =
    "The only supported binary operations are +, *, <<, >> and -";

/// The diagnostic for a unary operator other than negation.
pub const UNSUPPORTED_UNARY: &'static str = "The only supported unary operation is -";

/// The diagnostic for an expression that is neither an operation nor a cast.
pub const NOT_AN_OPERATION: &'static str = "Expected an operation or cast";

/// Why an expression was not rewritten.
#[derive(Clone, Copy, Debug, PartialEq, Eq, Structural)]
pub enum Error {
    /// The binary operator is none of `+`, `-`, `*`, `<<` and `>>`.
    UnsupportedBinary,
    /// The unary operator is not `-`.
    UnsupportedUnary,
    /// The expression is neither an operation nor a cast.
    NotAnOperation,
}

impl Error {
    /// The text of the diagnostic, as contracts see it.
    pub open spec fn text(self) -> Seq<char> {
        match self {
            Error::UnsupportedBinary => UNSUPPORTED_BINARY@,
            Error::UnsupportedUnary => UNSUPPORTED_UNARY@,
            Error::NotAnOperation => NOT_AN_OPERATION@,
        }
    }

    /// The text of the diagnostic.
    pub fn message(&self) -> (text: &'static str)
        ensures
            text@ == self.text(),
    {
        match self {
            Error::UnsupportedBinary => UNSUPPORTED_BINARY,
            Error::UnsupportedUnary => UNSUPPORTED_UNARY,
            Error::NotAnOperation => NOT_AN_OPERATION,
        }
    }
}

/// Whether a binary operator has a wrapping method.
pub open spec fn has_wrapping_method(operation: BinaryOperator) -> bool {
    ||| operation == BinaryOperator::Add
    ||| operation == BinaryOperator::Sub
    ||| operation == BinaryOperator::Mul
    ||| operation == BinaryOperator::Shl
    ||| operation == BinaryOperator::Shr
}

/// What an expression is rewritten into for wrapping arithmetic.
///
/// A binary operation with a wrapping method becomes a call of that method on
/// both operands, a cast a call of `wrapping_cast` with the target type as type
/// parameter, and a negation a call of `wrapping_neg`.
pub open spec fn wrapped<E, T>(expression: Expression<E, T>) -> Result<CallView<E, T>, Error> {
    match expression {
        Expression::Binary { left, operator, right } => if has_wrapping_method(operator) {
            Ok(
                CallView {
                    trait_name: "Wrapping"@ + trait_name_of(operator)->0,
                    method_name: "wrapping_"@ + method_name_of(operator)->0,
                    generic: None,
                    arguments: seq![left, right],
                },
            )
        } else {
            Err(Error::UnsupportedBinary)
        },
        Expression::Cast { operand, target } => Ok(
            CallView {
                trait_name: "WrappingCast"@,
                method_name: "wrapping_cast"@,
                generic: Some(target),
                arguments: seq![operand],
            },
        ),
        Expression::Unary { operator, operand } => if operator == UnaryOperator::Neg {
            Ok(
                CallView {
                    trait_name: "WrappingNeg"@,
                    method_name: "wrapping_neg"@,
                    generic: None,
                    arguments: seq![operand],
                },
            )
        } else {
            Err(Error::UnsupportedUnary)
        },
        Expression::Other => Err(Error::NotAnOperation),
    }
}

/// Rewrites an expression into a call of a wrapping method.
///
/// Only the outermost operation is rewritten. The operands go into the call
/// unchanged.
pub fn convert_expression<E, T>(expression: Expression<E, T>) -> (result: Result<Call<E, T>, Error>)
    ensures
        match result {
            Ok(call) => wrapped(expression) == Ok::<CallView<E, T>, Error>(call@),
            Err(error) => wrapped(expression) == Err::<CallView<E, T>, Error>(error),
        },
{
    match expression {
        Expression::Binary { left, operator, right } => {
            match operator {
                BinaryOperator::Add
                | BinaryOperator::Sub
                | BinaryOperator::Mul
                | BinaryOperator::Shl
                | BinaryOperator::Shr => {},
                _ => {
                    return Err(Error::UnsupportedBinary);
                },
            }
            let trait_name = String::from_str("Wrapping").concat(trait_name(&operator).unwrap());
            let method_name = String::from_str("wrapping_").concat(method_name(&operator).unwrap());
            let call = Call { trait_name, method_name, generic: None, arguments: vec![left, right] };
            assert(call@.arguments =~= seq![left, right]);
            Ok(call)
        },
        Expression::Cast { operand, target } => {
            let call = Call {
                trait_name: String::from_str("WrappingCast"),
                method_name: String::from_str("wrapping_cast"),
                generic: Some(target),
                arguments: vec![operand],
            };
            assert(call@.arguments =~= seq![operand]);
            Ok(call)
        },
        Expression::Unary { operator, operand } => {
            match operator {
                UnaryOperator::Neg => {},
                _ => {
                    return Err(Error::UnsupportedUnary);
                },
            }
            let call = Call {
                trait_name: String::from_str("WrappingNeg"),
                method_name: String::from_str("wrapping_neg"),
                generic: None,
                arguments: vec![operand],
            };
            assert(call@.arguments =~= seq![operand]);
            Ok(call)
        },
        Expression::Other => Err(Error::NotAnOperation),
    }
}

/// Whether `expansion` is what takes the place of `expression`, which stands
/// at `location`, for wrapping arithmetic.
///
/// Where the expression can be rewritten it is the call of [`wrapped`].
/// Otherwise it is a marker with the diagnostic of the error and the place of
/// the whole expression.
pub open spec fn wraps_to<E, T, L>(
    expansion: Expansion<E, T, L>,
    expression: Expression<E, T>,
    location: L,
) -> bool {
    match expansion {
        Expansion::Call(call) => wrapped(expression) == Ok::<CallView<E, T>, Error>(call@),
        Expansion::CompileError(diagnostic) => {
            &&& wrapped(expression) matches Err(error)
            &&& diagnostic.message@ == error.text()
            &&& diagnostic.location == location
        },
    }
}

/// Rewrites an expression for wrapping arithmetic, or reports at its place why
/// it cannot be rewritten.
pub fn wrapping_implementation<E, T, L>(expression: Expression<E, T>, location: L) -> (expansion:
    Expansion<E, T, L>)
    ensures
        wraps_to(expansion, expression, location),
{
    match convert_expression(expression) {
        Ok(call) => Expansion::Call(call),
        Err(error) => Expansion::CompileError(Diagnostic { message: error.message(), location }),
    }
}

} // verus!
