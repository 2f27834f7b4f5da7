//! The names of the traits and methods of `core::ops` that stand behind the
//! binary operators, compound assignments included.

use crate::operator::BinaryOperator;
use vstd::prelude::*;

verus! {

/// The name of the trait of a binary operator.
///
/// The arithmetic, bitwise and shift operators have one, and so have their
/// compound assignments. The logical operators and the comparisons have none.
pub open spec fn trait_name_of(operation: BinaryOperator) -> Option<Seq<char>> {
    match operation {
        BinaryOperator::Add => Some("Add"@),
        BinaryOperator::Sub => Some("Sub"@),
        BinaryOperator::Mul => Some("Mul"@),
        BinaryOperator::Div => Some("Div"@),
        BinaryOperator::Rem => Some("Rem"@),
        BinaryOperator::BitXor => Some("BitXor"@),
        BinaryOperator::BitAnd => Some("BitAnd"@),
        BinaryOperator::BitOr => Some("BitOr"@),
        BinaryOperator::Shl => Some("Shl"@),
        BinaryOperator::Shr => Some("Shr"@),
        BinaryOperator::AddAssign => Some("AddAssign"@),
        BinaryOperator::SubAssign => Some("SubAssign"@),
        BinaryOperator::MulAssign => Some("MulAssign"@),
        BinaryOperator::DivAssign => Some("DivAssign"@),
        BinaryOperator::RemAssign => Some("RemAssign"@),
        BinaryOperator::BitXorAssign => Some("BitXorAssign"@),
        BinaryOperator::BitAndAssign => Some("BitAndAssign"@),
        BinaryOperator::BitOrAssign => Some("BitOrAssign"@),
        BinaryOperator::ShlAssign => Some("ShlAssign"@),
        BinaryOperator::ShrAssign => Some("ShrAssign"@),
        _ => None,
    }
}

/// The name of the method of a binary operator.
///
/// It is defined for the operators that have a trait.
pub open spec fn method_name_of(operation: BinaryOperator) -> Option<Seq<char>> {
    match operation {
        BinaryOperator::Add => Some("add"@),
        BinaryOperator::Sub => Some("sub"@),
        BinaryOperator::Mul => Some("mul"@),
        BinaryOperator::Div => Some("div"@),
        BinaryOperator::Rem => Some("rem"@),
        BinaryOperator::BitXor => Some("bitxor"@),
        BinaryOperator::BitAnd => Some("bitand"@),
        BinaryOperator::BitOr => Some("bitor"@),
        BinaryOperator::Shl => Some("shl"@),
        BinaryOperator::Shr => Some("shr"@),
        BinaryOperator::AddAssign => Some("add_assign"@),
        BinaryOperator::SubAssign => Some("sub_assign"@),
        BinaryOperator::MulAssign => Some("mul_assign"@),
        BinaryOperator::DivAssign => Some("div_assign"@),
        BinaryOperator::RemAssign => Some("rem_assign"@),
        BinaryOperator::BitXorAssign => Some("bitxor_assign"@),
        BinaryOperator::BitAndAssign => Some("bitand_assign"@),
        BinaryOperator::BitOrAssign => Some("bitor_assign"@),
        BinaryOperator::ShlAssign => Some("shl_assign"@),
        BinaryOperator::ShrAssign => Some("shr_assign"@),
        _ => None,
    }
}

/// The operator that a compound assignment applies before it assigns.
pub open spec fn assigned_operation(operation: BinaryOperator) -> Option<BinaryOperator> {
    match operation {
        BinaryOperator::AddAssign => Some(BinaryOperator::Add),
        BinaryOperator::SubAssign => Some(BinaryOperator::Sub),
        BinaryOperator::MulAssign => Some(BinaryOperator::Mul),
        BinaryOperator::DivAssign => Some(BinaryOperator::Div),
        BinaryOperator::RemAssign => Some(BinaryOperator::Rem),
        BinaryOperator::BitXorAssign => Some(BinaryOperator::BitXor),
        BinaryOperator::BitAndAssign => Some(BinaryOperator::BitAnd),
        BinaryOperator::BitOrAssign => Some(BinaryOperator::BitOr),
        BinaryOperator::ShlAssign => Some(BinaryOperator::Shl),
        BinaryOperator::ShrAssign => Some(BinaryOperator::Shr),
        _ => None,
    }
}

/// A name as contracts see it.
pub open spec fn name_view(name: Option<&'static str>) -> Option<Seq<char>> {
    match name {
        Some(text) => Some(text@),
        None => None,
    }
}

/// Looks up the name of the trait of a binary operator.
pub fn trait_name(operation: &BinaryOperator) -> (name: Option<&'static str>)
    ensures
        name_view(name) == trait_name_of(*operation),
{
    match operation {
        BinaryOperator::Add => Some("Add"),
        BinaryOperator::Sub => Some("Sub"),
        BinaryOperator::Mul => Some("Mul"),
        BinaryOperator::Div => Some("Div"),
        BinaryOperator::Rem => Some("Rem"),
        BinaryOperator::BitXor => Some("BitXor"),
        BinaryOperator::BitAnd => Some("BitAnd"),
        BinaryOperator::BitOr => Some("BitOr"),
        BinaryOperator::Shl => Some("Shl"),
        BinaryOperator::Shr => Some("Shr"),
        BinaryOperator::AddAssign => Some("AddAssign"),
        BinaryOperator::SubAssign => Some("SubAssign"),
        BinaryOperator::MulAssign => Some("MulAssign"),
        BinaryOperator::DivAssign => Some("DivAssign"),
        BinaryOperator::RemAssign => Some("RemAssign"),
        BinaryOperator::BitXorAssign => Some("BitXorAssign"),
        BinaryOperator::BitAndAssign => Some("BitAndAssign"),
        BinaryOperator::BitOrAssign => Some("BitOrAssign"),
        BinaryOperator::ShlAssign => Some("ShlAssign"),
        BinaryOperator::ShrAssign => Some("ShrAssign"),
        _ => None,
    }
}

/// Looks up the name of the method of a binary operator.
///
/// Exclusive or is named `bitxor`, and its assignment `bitxor_assign`.
pub fn method_name(operation: &BinaryOperator) -> (name: Option<&'static str>)
    ensures
        name_view(name) == method_name_of(*operation),
{
    match operation {
        BinaryOperator::Add => Some("add"),
        BinaryOperator::Sub => Some("sub"),
        BinaryOperator::Mul => Some("mul"),
        BinaryOperator::Div => Some("div"),
        BinaryOperator::Rem => Some("rem"),
        BinaryOperator::BitXor => Some("bitxor"),
        BinaryOperator::BitAnd => Some("bitand"),
        BinaryOperator::BitOr => Some("bitor"),
        BinaryOperator::Shl => Some("shl"),
        BinaryOperator::Shr => Some("shr"),
        BinaryOperator::AddAssign => Some("add_assign"),
        BinaryOperator::SubAssign => Some("sub_assign"),
        BinaryOperator::MulAssign => Some("mul_assign"),
        BinaryOperator::DivAssign => Some("div_assign"),
        BinaryOperator::RemAssign => Some("rem_assign"),
        BinaryOperator::BitXorAssign => Some("bitxor_assign"),
        BinaryOperator::BitAndAssign => Some("bitand_assign"),
        BinaryOperator::BitOrAssign => Some("bitor_assign"),
        BinaryOperator::ShlAssign => Some("shl_assign"),
        BinaryOperator::ShrAssign => Some("shr_assign"),
        _ => None,
    }
}

} // verus!
