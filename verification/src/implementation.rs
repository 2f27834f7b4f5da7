//! The rewriting of an expression into a call of a mode's method.

use crate::expression::{Call, CallView, Diagnostic, Expansion, Expression};
use crate::mode::{Mode, ModeView};
use crate::operator::{BinaryOperator, Operator, UnaryOperator};
use vstd::prelude::*;

verus! {

/// The text of the one diagnostic that the rewriting gives.
pub const UNSUPPORTED_OPERATION: &'static str = "Unsupported operation";

/// Why an expression was not rewritten.
///
/// There is one reason only. An expression that is no operation, an operator
/// that has no trait, and an operator whose trait the mode lacks are all
/// reported alike.
#[derive(Clone, Copy, Debug, PartialEq, Eq, Structural)]
pub enum Error {
    /// The mode has no method for the expression.
    UnsupportedOperation,
}

impl Error {
    /// The text of the diagnostic.
    pub fn message(&self) -> (text: &'static str)
        ensures
            text@ == UNSUPPORTED_OPERATION@,
    {
        UNSUPPORTED_OPERATION
    }
}

/// The trait suffix and the method suffix of a binary operator.
///
/// The arithmetic, bitwise and shift operators have them. The logical
/// operators, the comparisons and the assignments have none.
pub open spec fn binary_suffixes(operation: BinaryOperator) -> Option<(Seq<char>, Seq<char>)> {
    match operation {
        BinaryOperator::Add => Some(("Add"@, "add"@)),
        BinaryOperator::Sub => Some(("Sub"@, "sub"@)),
        BinaryOperator::Mul => Some(("Mul"@, "mul"@)),
        BinaryOperator::Div => Some(("Div"@, "div"@)),
        BinaryOperator::Rem => Some(("Rem"@, "rem"@)),
        BinaryOperator::BitXor => Some(("BitXor"@, "bitxor"@)),
        BinaryOperator::BitAnd => Some(("BitAnd"@, "bitand"@)),
        BinaryOperator::BitOr => Some(("BitOr"@, "bitor"@)),
        BinaryOperator::Shl => Some(("Shl"@, "shl"@)),
        BinaryOperator::Shr => Some(("Shr"@, "shr"@)),
        _ => None,
    }
}

/// The trait suffix and the method suffix of an operator.
///
/// Twelve operators have them: the ten binary ones of [`binary_suffixes`],
/// negation and the cast.
pub open spec fn suffixes(operator: Operator) -> Option<(Seq<char>, Seq<char>)> {
    match operator {
        Operator::Binary(operation) => binary_suffixes(operation),
        Operator::Unary(UnaryOperator::Neg) => Some(("Neg"@, "neg"@)),
        Operator::Unary(_) => None,
        Operator::Cast => Some(("Cast"@, "cast"@)),
    }
}

/// The trait suffix of an operator that has names.
pub open spec fn trait_suffix(operator: Operator) -> Seq<char>
    recommends
        suffixes(operator) is Some,
{
    match suffixes(operator) {
        Some((trait_suffix, _)) => trait_suffix,
        None => Seq::empty(),
    }
}

/// The method suffix of an operator that has names.
pub open spec fn method_suffix(operator: Operator) -> Seq<char>
    recommends
        suffixes(operator) is Some,
{
    match suffixes(operator) {
        Some((_, method_suffix)) => method_suffix,
        None => Seq::empty(),
    }
}

/// A pair of names as contracts see it.
pub open spec fn names_view(names: Option<(&'static str, &'static str)>) -> Option<
    (Seq<char>, Seq<char>),
> {
    match names {
        Some((trait_suffix, method_suffix)) => Some((trait_suffix@, method_suffix@)),
        None => None,
    }
}

/// Looks up the trait suffix and the method suffix of a binary operator.
///
/// Exclusive or is named `bitxor`, as the method of the trait in `core::ops` is.
pub fn trait_method_suffix(operation: &BinaryOperator) -> (names: Option<
    (&'static str, &'static str),
>)
    ensures
        names_view(names) == binary_suffixes(*operation),
{
    match operation {
        BinaryOperator::Add => Some(("Add", "add")),
        BinaryOperator::Sub => Some(("Sub", "sub")),
        BinaryOperator::Mul => Some(("Mul", "mul")),
        BinaryOperator::Div => Some(("Div", "div")),
        BinaryOperator::Rem => Some(("Rem", "rem")),
        BinaryOperator::BitXor => Some(("BitXor", "bitxor")),
        BinaryOperator::BitAnd => Some(("BitAnd", "bitand")),
        BinaryOperator::BitOr => Some(("BitOr", "bitor")),
        BinaryOperator::Shl => Some(("Shl", "shl")),
        BinaryOperator::Shr => Some(("Shr", "shr")),
        _ => None,
    }
}

/// Looks up the trait suffix and the method suffix of any operator.
///
/// This is a pure lookup. An operator outside the table has no names, and that
/// is no error here.
pub fn classify(operator: &Operator) -> (names: Option<(&'static str, &'static str)>)
    ensures
        names_view(names) == suffixes(*operator),
{
    match operator {
        Operator::Binary(operation) => trait_method_suffix(operation),
        Operator::Unary(UnaryOperator::Neg) => Some(("Neg", "neg")),
        Operator::Unary(_) => None,
        Operator::Cast => Some(("Cast", "cast")),
    }
}

/// What an expression is rewritten into under a mode.
///
/// The expression must be built around an operator that has names, and the
/// mode must support the operator's trait suffix. The call then names the trait
/// by the mode's name prefix and the trait suffix, and the method by the mode's
/// method prefix, an underscore and the method suffix. Its arguments are the
/// operands as they stand, and it has a type parameter where the expression is
/// a cast.
pub open spec fn dispatch<E, T>(expression: Expression<E, T>, mode: ModeView) -> Result<
    CallView<E, T>,
    Error,
> {
    match expression.operator() {
        Some(operator) => match suffixes(operator) {
            Some((trait_suffix, method_suffix)) => if mode.supports(trait_suffix) {
                Ok(
                    CallView {
                        trait_name: mode.name_prefix + trait_suffix,
                        method_name: mode.method_prefix + "_"@ + method_suffix,
                        generic: expression.target(),
                        arguments: expression.operands(),
                    },
                )
            } else {
                Err(Error::UnsupportedOperation)
            },
            None => Err(Error::UnsupportedOperation),
        },
        None => Err(Error::UnsupportedOperation),
    }
}

/// Rewrites an expression into a call of the mode's method for its operator.
///
/// Only the outermost operation is rewritten. The operands go into the call
/// unchanged, also where they hold operations themselves.
pub fn convert_expression<E, T>(expression: Expression<E, T>, mode: &Mode) -> (result: Result<
    Call<E, T>,
    Error,
>)
    ensures
        match result {
            Ok(call) => dispatch(expression, mode@) == Ok::<CallView<E, T>, Error>(call@),
            Err(error) => dispatch(expression, mode@) == Err::<CallView<E, T>, Error>(error),
        },
{
    let (operator, arguments, generic) = match expression {
        Expression::Binary { left, operator, right } => {
            (Operator::Binary(operator), vec![left, right], None)
        },
        Expression::Cast { operand, target } => (Operator::Cast, vec![operand], Some(target)),
        Expression::Unary { operator, operand } => {
            match operator {
                UnaryOperator::Neg => {},
                _ => {
                    return Err(Error::UnsupportedOperation);
                },
            }
            (Operator::Unary(operator), vec![operand], None)
        },
        Expression::Other => {
            return Err(Error::UnsupportedOperation);
        },
    };
    let (trait_suffix, method_suffix) = match classify(&operator) {
        Some(names) => names,
        None => {
            return Err(Error::UnsupportedOperation);
        },
    };
    if !mode.supports(trait_suffix) {
        return Err(Error::UnsupportedOperation);
    }
    let trait_name = String::from_str(mode.name_prefix).concat(trait_suffix);
    let method_name = String::from_str(mode.method_prefix).concat("_").concat(method_suffix);
    let call = Call { trait_name, method_name, generic, arguments };
    assert(call@.arguments =~= expression.operands());
    Ok(call)
}

/// Whether `expansion` is what takes the place of `expression`, which stands
/// at `location`, under `mode`.
///
/// Where the expression can be rewritten it is the call of [`dispatch`].
/// Otherwise it is a marker with the one diagnostic and the place of the whole
/// expression.
pub open spec fn expands_to<E, T, L>(
    expansion: Expansion<E, T, L>,
    expression: Expression<E, T>,
    location: L,
    mode: ModeView,
) -> bool {
    match expansion {
        Expansion::Call(call) => dispatch(expression, mode) == Ok::<CallView<E, T>, Error>(call@),
        Expansion::CompileError(diagnostic) => {
            &&& dispatch(expression, mode) is Err
            &&& diagnostic.message@ == UNSUPPORTED_OPERATION@
            &&& diagnostic.location == location
        },
    }
}

/// Rewrites an expression, or reports at its place that it cannot be rewritten.
///
/// There is always something to put where the expression stood. On failure it
/// is a marker that carries the diagnostic and the place of the whole
/// expression, whichever part of it was at fault.
pub fn implementation<E, T, L>(expression: Expression<E, T>, location: L, mode: &Mode) -> (expansion:
    Expansion<E, T, L>)
    ensures
        expands_to(expansion, expression, location, mode@),
{
    match convert_expression(expression, mode) {
        Ok(call) => Expansion::Call(call),
        Err(error) => Expansion::CompileError(Diagnostic { message: error.message(), location }),
    }
}

} // verus!
