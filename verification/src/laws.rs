//! What holds of the rewriting on every expression and under every mode.

use crate::expression::{CallView, Expression};
use crate::implementation::{
    binary_suffixes, dispatch, method_suffix, names_view, suffixes, trait_suffix, Error,
};
use crate::mode::{checked_mode, encapsulating_mode, saturating_mode, wrapping_mode, ModeView};
use crate::operator::{BinaryOperator, Operator, UnaryOperator};
use crate::util::{assigned_operation, method_name_of, trait_name_of};
use crate::wrapping::wrapped;
use vstd::prelude::*;

verus! {

/// Makes the characters of every trait suffix and method suffix known.
proof fn reveal_suffixes()
    ensures
        "Add"@ == seq!['A', 'd', 'd'],
        "Sub"@ == seq!['S', 'u', 'b'],
        "Mul"@ == seq!['M', 'u', 'l'],
        "Div"@ == seq!['D', 'i', 'v'],
        "Rem"@ == seq!['R', 'e', 'm'],
        "BitXor"@ == seq!['B', 'i', 't', 'X', 'o', 'r'],
        "BitAnd"@ == seq!['B', 'i', 't', 'A', 'n', 'd'],
        "BitOr"@ == seq!['B', 'i', 't', 'O', 'r'],
        "Shl"@ == seq!['S', 'h', 'l'],
        "Shr"@ == seq!['S', 'h', 'r'],
        "Neg"@ == seq!['N', 'e', 'g'],
        "Cast"@ == seq!['C', 'a', 's', 't'],
        "add"@ == seq!['a', 'd', 'd'],
        "sub"@ == seq!['s', 'u', 'b'],
        "mul"@ == seq!['m', 'u', 'l'],
        "div"@ == seq!['d', 'i', 'v'],
        "rem"@ == seq!['r', 'e', 'm'],
        "bitxor"@ == seq!['b', 'i', 't', 'x', 'o', 'r'],
        "bitand"@ == seq!['b', 'i', 't', 'a', 'n', 'd'],
        "bitor"@ == seq!['b', 'i', 't', 'o', 'r'],
        "shl"@ == seq!['s', 'h', 'l'],
        "shr"@ == seq!['s', 'h', 'r'],
        "neg"@ == seq!['n', 'e', 'g'],
        "cast"@ == seq!['c', 'a', 's', 't'],
{
    reveal_strlit("Add");
    reveal_strlit("Sub");
    reveal_strlit("Mul");
    reveal_strlit("Div");
    reveal_strlit("Rem");
    reveal_strlit("BitXor");
    reveal_strlit("BitAnd");
    reveal_strlit("BitOr");
    reveal_strlit("Shl");
    reveal_strlit("Shr");
    reveal_strlit("Neg");
    reveal_strlit("Cast");
    reveal_strlit("add");
    reveal_strlit("sub");
    reveal_strlit("mul");
    reveal_strlit("div");
    reveal_strlit("rem");
    reveal_strlit("bitxor");
    reveal_strlit("bitand");
    reveal_strlit("bitor");
    reveal_strlit("shl");
    reveal_strlit("shr");
    reveal_strlit("neg");
    reveal_strlit("cast");
    assert("Add"@ =~= seq!['A', 'd', 'd']);
    assert("Sub"@ =~= seq!['S', 'u', 'b']);
    assert("Mul"@ =~= seq!['M', 'u', 'l']);
    assert("Div"@ =~= seq!['D', 'i', 'v']);
    assert("Rem"@ =~= seq!['R', 'e', 'm']);
    assert("BitXor"@ =~= seq!['B', 'i', 't', 'X', 'o', 'r']);
    assert("BitAnd"@ =~= seq!['B', 'i', 't', 'A', 'n', 'd']);
    assert("BitOr"@ =~= seq!['B', 'i', 't', 'O', 'r']);
    assert("Shl"@ =~= seq!['S', 'h', 'l']);
    assert("Shr"@ =~= seq!['S', 'h', 'r']);
    assert("Neg"@ =~= seq!['N', 'e', 'g']);
    assert("Cast"@ =~= seq!['C', 'a', 's', 't']);
    assert("add"@ =~= seq!['a', 'd', 'd']);
    assert("sub"@ =~= seq!['s', 'u', 'b']);
    assert("mul"@ =~= seq!['m', 'u', 'l']);
    assert("div"@ =~= seq!['d', 'i', 'v']);
    assert("rem"@ =~= seq!['r', 'e', 'm']);
    assert("bitxor"@ =~= seq!['b', 'i', 't', 'x', 'o', 'r']);
    assert("bitand"@ =~= seq!['b', 'i', 't', 'a', 'n', 'd']);
    assert("bitor"@ =~= seq!['b', 'i', 't', 'o', 'r']);
    assert("shl"@ =~= seq!['s', 'h', 'l']);
    assert("shr"@ =~= seq!['s', 'h', 'r']);
    assert("neg"@ =~= seq!['n', 'e', 'g']);
    assert("cast"@ =~= seq!['c', 'a', 's', 't']);
}

/// An expression built around an operator that has names is rewritten under a
/// mode if and only if the mode supports the operator's trait suffix. Where it
/// is not rewritten, the error is the one there is.
pub proof fn law_rewritten_iff_supported<E, T>(
    expression: Expression<E, T>,
    mode: ModeView,
    operator: Operator,
)
    requires
        expression.operator() == Some(operator),
        suffixes(operator) is Some,
    ensures
        dispatch(expression, mode) is Ok <==> mode.supports(trait_suffix(operator)),
        dispatch(expression, mode) is Err ==> dispatch(expression, mode) == Err::<
            CallView<E, T>,
            Error,
        >(Error::UnsupportedOperation),
{
}

/// No call is emitted for a trait that the mode lacks: the trait's name is the
/// mode's name prefix followed by a suffix that the mode supports.
pub proof fn law_emitted_trait_is_supported<E, T>(expression: Expression<E, T>, mode: ModeView)
    requires
        dispatch(expression, mode) is Ok,
    ensures
        exists|suffix: Seq<char>|
            #![trigger mode.supports(suffix)]
            mode.supports(suffix) && dispatch(expression, mode)->Ok_0.trait_name
                == mode.name_prefix + suffix,
{
    let suffix = trait_suffix(expression.operator()->0);
    assert(mode.supports(suffix));
}

/// Classification gives the same names on every call: any two results of
/// [`classify`](crate::implementation::classify) for one operator name the
/// same suffixes, or both name none.
pub proof fn law_classification_is_stable(
    operator: Operator,
    first: Option<(&'static str, &'static str)>,
    second: Option<(&'static str, &'static str)>,
)
    requires
        names_view(first) == suffixes(operator),
        names_view(second) == suffixes(operator),
    ensures
        names_view(first) == names_view(second),
        first is Some <==> second is Some,
{
}

/// Two operators with the same trait suffix, or with the same method suffix,
/// are the same operator.
pub proof fn law_names_are_one_to_one(first: Operator, second: Operator)
    requires
        suffixes(first) is Some,
        suffixes(second) is Some,
    ensures
        trait_suffix(first) == trait_suffix(second) ==> first == second,
        method_suffix(first) == method_suffix(second) ==> first == second,
{
    reveal_suffixes();
}

/// The emitted trait is named by the mode's name prefix and the operator's
/// trait suffix. The emitted method is named by the mode's method prefix, an
/// underscore and the operator's method suffix.
pub proof fn law_naming<E, T>(expression: Expression<E, T>, mode: ModeView)
    requires
        dispatch(expression, mode) is Ok,
    ensures
        expression.operator() is Some,
        suffixes(expression.operator()->0) is Some,
        dispatch(expression, mode)->Ok_0.trait_name == mode.name_prefix + trait_suffix(
            expression.operator()->0,
        ),
        dispatch(expression, mode)->Ok_0.method_name == mode.method_prefix + seq!['_']
            + method_suffix(expression.operator()->0),
{
    reveal_strlit("_");
    assert("_"@ =~= seq!['_']);
}

/// The arguments of the emitted call are the operands of the expression, in
/// their order and as they stand: both sides of a binary operation, the one
/// operand of a negation or of a cast.
pub proof fn law_operands_preserved<E, T>(expression: Expression<E, T>, mode: ModeView)
    requires
        dispatch(expression, mode) is Ok,
    ensures
        dispatch(expression, mode)->Ok_0.arguments == expression.operands(),
        expression matches Expression::Binary { left, right, .. } ==> dispatch(
            expression,
            mode,
        )->Ok_0.arguments == seq![left, right],
        expression matches Expression::Unary { operand, .. } ==> dispatch(
            expression,
            mode,
        )->Ok_0.arguments == seq![operand],
        expression matches Expression::Cast { operand, .. } ==> dispatch(
            expression,
            mode,
        )->Ok_0.arguments == seq![operand],
{
}

/// Only a cast gives the emitted call a type parameter.
pub proof fn law_type_parameter_only_for_cast<E, T>(expression: Expression<E, T>, mode: ModeView)
    requires
        dispatch(expression, mode) is Ok,
    ensures
        expression is Cast <==> dispatch(expression, mode)->Ok_0.generic is Some,
{
}

/// Under a mode that supports casts, a cast is rewritten into a call of the
/// mode's cast method, with the target type as the type parameter and the
/// operand as the only argument.
pub proof fn law_cast_carries_type<E, T>(operand: E, target: T, mode: ModeView)
    requires
        mode.supports("Cast"@),
    ensures
        dispatch(Expression::Cast { operand, target }, mode) == Ok::<CallView<E, T>, Error>(
            CallView {
                trait_name: mode.name_prefix + "Cast"@,
                method_name: mode.method_prefix + "_cast"@,
                generic: Some(target),
                arguments: seq![operand],
            },
        ),
{
    reveal_strlit("_");
    reveal_strlit("cast");
    reveal_strlit("_cast");
    assert("_"@ + "cast"@ =~= "_cast"@);
    assert(mode.method_prefix + "_"@ + "cast"@ =~= mode.method_prefix + "_cast"@);
}

/// An expression that is no operation is never rewritten.
pub proof fn law_non_operation_rejected<E, T>(mode: ModeView)
    ensures
        dispatch(Expression::<E, T>::Other, mode) == Err::<CallView<E, T>, Error>(
            Error::UnsupportedOperation,
        ),
{
}

/// Of the unary operators only negation is ever rewritten.
pub proof fn law_only_negation_among_unary<E, T>(
    operator: UnaryOperator,
    operand: E,
    mode: ModeView,
)
    requires
        operator != UnaryOperator::Neg,
    ensures
        dispatch(Expression::<E, T>::Unary { operator, operand }, mode) == Err::<
            CallView<E, T>,
            Error,
        >(Error::UnsupportedOperation),
{
}

/// A binary operator without names is never rewritten: the logical operators,
/// the comparisons and the assignments.
pub proof fn law_unnamed_binary_rejected<E, T>(
    left: E,
    operator: BinaryOperator,
    right: E,
    mode: ModeView,
)
    requires
        binary_suffixes(operator) is None,
    ensures
        dispatch(Expression::<E, T>::Binary { left, operator, right }, mode) == Err::<
            CallView<E, T>,
            Error,
        >(Error::UnsupportedOperation),
{
}

/// The checked mode rewrites addition, subtraction, multiplication, division,
/// remainder, both shifts and negation, and nothing else.
pub proof fn law_checked_operators(operator: Operator)
    requires
        suffixes(operator) is Some,
    ensures
        checked_mode().supports(trait_suffix(operator)) <==> {
            ||| operator == Operator::Binary(BinaryOperator::Add)
            ||| operator == Operator::Binary(BinaryOperator::Sub)
            ||| operator == Operator::Binary(BinaryOperator::Mul)
            ||| operator == Operator::Binary(BinaryOperator::Div)
            ||| operator == Operator::Binary(BinaryOperator::Rem)
            ||| operator == Operator::Binary(BinaryOperator::Shl)
            ||| operator == Operator::Binary(BinaryOperator::Shr)
            ||| operator == Operator::Unary(UnaryOperator::Neg)
        },
{
    reveal_suffixes();
    let all = checked_mode().supported_trait_suffixes;
    assert(all[0] == "Add"@ && all[1] == "Div"@ && all[2] == "Mul"@ && all[3] == "Neg"@);
    assert(all[4] == "Rem"@ && all[5] == "Shl"@ && all[6] == "Shr"@ && all[7] == "Sub"@);
}

/// The encapsulating mode rewrites addition, subtraction, multiplication and
/// negation, and nothing else: a wider type does not keep division, remainder
/// or a shift from overflowing.
pub proof fn law_encapsulating_operators(operator: Operator)
    requires
        suffixes(operator) is Some,
    ensures
        encapsulating_mode().supports(trait_suffix(operator)) <==> {
            ||| operator == Operator::Binary(BinaryOperator::Add)
            ||| operator == Operator::Binary(BinaryOperator::Sub)
            ||| operator == Operator::Binary(BinaryOperator::Mul)
            ||| operator == Operator::Unary(UnaryOperator::Neg)
        },
{
    reveal_suffixes();
    let all = encapsulating_mode().supported_trait_suffixes;
    assert(all[0] == "Add"@ && all[1] == "Mul"@ && all[2] == "Neg"@ && all[3] == "Sub"@);
}

/// The saturating mode rewrites addition, subtraction and multiplication, and
/// nothing else.
pub proof fn law_saturating_operators(operator: Operator)
    requires
        suffixes(operator) is Some,
    ensures
        saturating_mode().supports(trait_suffix(operator)) <==> {
            ||| operator == Operator::Binary(BinaryOperator::Add)
            ||| operator == Operator::Binary(BinaryOperator::Sub)
            ||| operator == Operator::Binary(BinaryOperator::Mul)
        },
{
    reveal_suffixes();
    let all = saturating_mode().supported_trait_suffixes;
    assert(all[0] == "Add"@ && all[1] == "Mul"@ && all[2] == "Sub"@);
}

/// The wrapping mode rewrites addition, subtraction, multiplication, both
/// shifts and negation, and nothing else.
pub proof fn law_wrapping_operators(operator: Operator)
    requires
        suffixes(operator) is Some,
    ensures
        wrapping_mode().supports(trait_suffix(operator)) <==> {
            ||| operator == Operator::Binary(BinaryOperator::Add)
            ||| operator == Operator::Binary(BinaryOperator::Sub)
            ||| operator == Operator::Binary(BinaryOperator::Mul)
            ||| operator == Operator::Binary(BinaryOperator::Shl)
            ||| operator == Operator::Binary(BinaryOperator::Shr)
            ||| operator == Operator::Unary(UnaryOperator::Neg)
        },
{
    reveal_suffixes();
    let all = wrapping_mode().supported_trait_suffixes;
    assert(all[0] == "Add"@ && all[1] == "Mul"@ && all[2] == "Neg"@);
    assert(all[3] == "Shl"@ && all[4] == "Shr"@ && all[5] == "Sub"@);
}

/// Whether some operator has this trait suffix.
pub open spec fn is_trait_suffix(suffix: Seq<char>) -> bool {
    exists|operator: Operator|
        suffixes(operator) is Some && #[trigger] trait_suffix(operator) == suffix
}

/// Every trait suffix that one of the four modes supports is the trait suffix
/// of an operator.
pub proof fn law_modes_support_operators_only(suffix: Seq<char>)
    requires
        checked_mode().supports(suffix) || encapsulating_mode().supports(suffix)
            || saturating_mode().supports(suffix) || wrapping_mode().supports(suffix),
    ensures
        is_trait_suffix(suffix),
{
    let add = Operator::Binary(BinaryOperator::Add);
    let sub = Operator::Binary(BinaryOperator::Sub);
    let mul = Operator::Binary(BinaryOperator::Mul);
    let div = Operator::Binary(BinaryOperator::Div);
    let rem = Operator::Binary(BinaryOperator::Rem);
    let shl = Operator::Binary(BinaryOperator::Shl);
    let shr = Operator::Binary(BinaryOperator::Shr);
    let neg = Operator::Unary(UnaryOperator::Neg);
    assert(suffixes(add) is Some && trait_suffix(add) == "Add"@);
    assert(suffixes(sub) is Some && trait_suffix(sub) == "Sub"@);
    assert(suffixes(mul) is Some && trait_suffix(mul) == "Mul"@);
    assert(suffixes(div) is Some && trait_suffix(div) == "Div"@);
    assert(suffixes(rem) is Some && trait_suffix(rem) == "Rem"@);
    assert(suffixes(shl) is Some && trait_suffix(shl) == "Shl"@);
    assert(suffixes(shr) is Some && trait_suffix(shr) == "Shr"@);
    assert(suffixes(neg) is Some && trait_suffix(neg) == "Neg"@);
}

/// The names of an operator's trait and method in `core::ops` are its trait
/// suffix and its method suffix.
pub proof fn law_names_extend_suffixes(operation: BinaryOperator)
    requires
        binary_suffixes(operation) is Some,
    ensures
        trait_name_of(operation) == Some(trait_suffix(Operator::Binary(operation))),
        method_name_of(operation) == Some(method_suffix(Operator::Binary(operation))),
{
}

/// A binary operator has a trait if and only if it has a method. It has both
/// if and only if it has suffixes itself or is the compound assignment of an
/// operator that has.
pub proof fn law_named_operators(operation: BinaryOperator)
    ensures
        trait_name_of(operation) is Some <==> method_name_of(operation) is Some,
        trait_name_of(operation) is Some <==> binary_suffixes(operation) is Some
            || assigned_operation(operation) is Some,
        assigned_operation(operation) matches Some(plain) ==> binary_suffixes(plain) is Some,
{
}

/// The trait of a compound assignment is named like the trait of its operator
/// with `Assign` behind it, and its method like the method of its operator with
/// `_assign` behind it.
pub proof fn law_assignment_names(operation: BinaryOperator)
    requires
        assigned_operation(operation) is Some,
    ensures
        trait_name_of(operation) == Some(
            trait_name_of(assigned_operation(operation)->0)->0 + "Assign"@,
        ),
        method_name_of(operation) == Some(
            method_name_of(assigned_operation(operation)->0)->0 + "_assign"@,
        ),
{
    reveal_suffixes();
    reveal_strlit("Assign");
    reveal_strlit("_assign");
    reveal_strlit("AddAssign");
    reveal_strlit("SubAssign");
    reveal_strlit("MulAssign");
    reveal_strlit("DivAssign");
    reveal_strlit("RemAssign");
    reveal_strlit("BitXorAssign");
    reveal_strlit("BitAndAssign");
    reveal_strlit("BitOrAssign");
    reveal_strlit("ShlAssign");
    reveal_strlit("ShrAssign");
    reveal_strlit("add_assign");
    reveal_strlit("sub_assign");
    reveal_strlit("mul_assign");
    reveal_strlit("div_assign");
    reveal_strlit("rem_assign");
    reveal_strlit("bitxor_assign");
    reveal_strlit("bitand_assign");
    reveal_strlit("bitor_assign");
    reveal_strlit("shl_assign");
    reveal_strlit("shr_assign");
    let plain = assigned_operation(operation)->0;
    assert(trait_name_of(operation)->0 =~= trait_name_of(plain)->0 + "Assign"@);
    assert(method_name_of(operation)->0 =~= method_name_of(plain)->0 + "_assign"@);
}

/// On every expression but a cast, the rewriting for wrapping arithmetic alone
/// and the general rewriting under the wrapping mode succeed together, and
/// then emit the same call.
pub proof fn law_wrapped_agrees_with_wrapping_mode<E, T>(expression: Expression<E, T>)
    requires
        !(expression is Cast),
    ensures
        wrapped(expression) is Ok <==> dispatch(expression, wrapping_mode()) is Ok,
        wrapped(expression) is Ok ==> wrapped(expression)->Ok_0 == dispatch(
            expression,
            wrapping_mode(),
        )->Ok_0,
{
    reveal_strlit("_");
    reveal_strlit("wrapping");
    reveal_strlit("wrapping_");
    reveal_strlit("Wrapping");
    reveal_strlit("WrappingNeg");
    reveal_strlit("wrapping_neg");
    reveal_suffixes();
    assert("wrapping"@ + "_"@ =~= "wrapping_"@);
    match expression {
        Expression::Binary { left, operator, right } => {
            if binary_suffixes(operator) is Some {
                law_wrapping_operators(Operator::Binary(operator));
            }
            if wrapped(expression) is Ok {
                let ours = wrapped(expression)->Ok_0;
                let theirs = dispatch(expression, wrapping_mode())->Ok_0;
                assert(ours.method_name =~= theirs.method_name);
                assert(ours.trait_name =~= theirs.trait_name);
            }
        },
        Expression::Unary { operator, operand } => {
            if operator == UnaryOperator::Neg {
                law_wrapping_operators(Operator::Unary(operator));
                let ours = wrapped(expression)->Ok_0;
                let theirs = dispatch(expression, wrapping_mode())->Ok_0;
                assert(ours.method_name =~= theirs.method_name);
                assert(ours.trait_name =~= theirs.trait_name);
            }
        },
        _ => {},
    }
}

/// The rewriting for wrapping arithmetic alone turns a cast into what the
/// general rewriting gives under a mode with the prefixes of the wrapping mode
/// that supports casts.
pub proof fn law_wrapped_cast<E, T>(operand: E, target: T, mode: ModeView)
    requires
        mode.name_prefix == wrapping_mode().name_prefix,
        mode.method_prefix == wrapping_mode().method_prefix,
        mode.supports("Cast"@),
    ensures
        wrapped(Expression::Cast { operand, target }) is Ok,
        dispatch(Expression::Cast { operand, target }, mode) is Ok,
        wrapped(Expression::Cast { operand, target })->Ok_0 == dispatch(
            Expression::Cast { operand, target },
            mode,
        )->Ok_0,
{
    reveal_strlit("_");
    reveal_strlit("wrapping");
    reveal_strlit("Wrapping");
    reveal_strlit("WrappingCast");
    reveal_strlit("wrapping_cast");
    reveal_suffixes();
    let ours = wrapped(Expression::Cast { operand, target })->Ok_0;
    let theirs = dispatch(Expression::Cast { operand, target }, mode)->Ok_0;
    assert(ours.method_name =~= theirs.method_name);
    assert(ours.trait_name =~= theirs.trait_name);
}

/// None of the four modes supports casts: under each of them the general
/// rewriting rejects every cast.
pub proof fn law_modes_reject_casts<E, T>(operand: E, target: T)
    ensures
        dispatch(Expression::Cast { operand, target }, checked_mode()) is Err,
        dispatch(Expression::Cast { operand, target }, encapsulating_mode()) is Err,
        dispatch(Expression::Cast { operand, target }, saturating_mode()) is Err,
        dispatch(Expression::Cast { operand, target }, wrapping_mode()) is Err,
{
    law_checked_operators(Operator::Cast);
    law_encapsulating_operators(Operator::Cast);
    law_saturating_operators(Operator::Cast);
    law_wrapping_operators(Operator::Cast);
}

} // verus!
