//! The four arithmetic modes as configuration records.

use crate::text::same_text;
use vstd::prelude::*;

verus! {

/// A mode as contracts see it.
pub struct ModeView {
    /// What the name of every trait of the family begins with.
    pub name_prefix: Seq<char>,
    /// What the name of every method of the family begins with.
    pub method_prefix: Seq<char>,
    /// The trait suffixes of the operations that the family offers.
    pub supported_trait_suffixes: Seq<Seq<char>>,
}

impl ModeView {
    /// Whether the family has a trait for this suffix.
    pub open spec fn supports(self, trait_suffix: Seq<char>) -> bool {
        self.supported_trait_suffixes.contains(trait_suffix)
    }
}

/// An arithmetic mode: a family of traits, one per supported operation.
///
/// A mode is plain configuration. Adding a mode means writing one more record.
#[derive(Clone, Debug, PartialEq, Eq)]
pub struct Mode {
    /// What the name of every trait of the family begins with, as in `Checked`.
    pub name_prefix: &'static str,
    /// What the name of every method of the family begins with, as in `checked`.
    pub method_prefix: &'static str,
    /// The trait suffixes of the operations that the family offers.
    pub supported_trait_suffixes: Vec<&'static str>,
}

impl View for Mode {
    type V = ModeView;

    open spec fn view(&self) -> ModeView {
        ModeView {
            name_prefix: self.name_prefix@,
            method_prefix: self.method_prefix@,
            supported_trait_suffixes: Seq::new(
                self.supported_trait_suffixes@.len(),
                |i: int| self.supported_trait_suffixes@[i]@,
            ),
        }
    }
}

/// Checked arithmetic: an operation that overflows yields no value.
pub open spec fn checked_mode() -> ModeView {
    ModeView {
        name_prefix: "Checked"@,
        method_prefix: "checked"@,
        supported_trait_suffixes: seq![
            "Add"@, "Div"@, "Mul"@, "Neg"@, "Rem"@, "Shl"@, "Shr"@, "Sub"@
        ],
    }
}

/// Encapsulating arithmetic: operands are promoted to a wider type first.
///
/// Promotion does not make division, remainder or shifts free of overflow, so
/// they are not offered.
pub open spec fn encapsulating_mode() -> ModeView {
    ModeView {
        name_prefix: "Encapsulating"@,
        method_prefix: "encapsulating"@,
        supported_trait_suffixes: seq!["Add"@, "Mul"@, "Neg"@, "Sub"@],
    }
}

/// Saturating arithmetic: a result out of range is clamped to the nearest bound.
pub open spec fn saturating_mode() -> ModeView {
    ModeView {
        name_prefix: "Saturating"@,
        method_prefix: "saturating"@,
        supported_trait_suffixes: seq!["Add"@, "Mul"@, "Sub"@],
    }
}

/// Wrapping arithmetic: a result is reduced modulo the range of its type.
pub open spec fn wrapping_mode() -> ModeView {
    ModeView {
        name_prefix: "Wrapping"@,
        method_prefix: "wrapping"@,
        supported_trait_suffixes: seq!["Add"@, "Mul"@, "Neg"@, "Shl"@, "Shr"@, "Sub"@],
    }
}

impl Mode {
    /// The record of checked arithmetic.
    pub fn checked() -> (mode: Mode)
        ensures
            mode@ == checked_mode(),
    {
        let mode = Mode {
            name_prefix: "Checked",
            method_prefix: "checked",
            supported_trait_suffixes: vec!["Add", "Div", "Mul", "Neg", "Rem", "Shl", "Shr", "Sub"],
        };
        assert(mode@.supported_trait_suffixes =~= checked_mode().supported_trait_suffixes);
        mode
    }

    /// The record of encapsulating arithmetic.
    pub fn encapsulating() -> (mode: Mode)
        ensures
            mode@ == encapsulating_mode(),
    {
        let mode = Mode {
            name_prefix: "Encapsulating",
            method_prefix: "encapsulating",
            supported_trait_suffixes: vec!["Add", "Mul", "Neg", "Sub"],
        };
        assert(mode@.supported_trait_suffixes =~= encapsulating_mode().supported_trait_suffixes);
        mode
    }

    /// The record of saturating arithmetic.
    pub fn saturating() -> (mode: Mode)
        ensures
            mode@ == saturating_mode(),
    {
        let mode = Mode {
            name_prefix: "Saturating",
            method_prefix: "saturating",
            supported_trait_suffixes: vec!["Add", "Mul", "Sub"],
        };
        assert(mode@.supported_trait_suffixes =~= saturating_mode().supported_trait_suffixes);
        mode
    }

    /// The record of wrapping arithmetic.
    pub fn wrapping() -> (mode: Mode)
        ensures
            mode@ == wrapping_mode(),
    {
        let mode = Mode {
            name_prefix: "Wrapping",
            method_prefix: "wrapping",
            supported_trait_suffixes: vec!["Add", "Mul", "Neg", "Shl", "Shr", "Sub"],
        };
        assert(mode@.supported_trait_suffixes =~= wrapping_mode().supported_trait_suffixes);
        mode
    }

    /// Whether the family has a trait for this suffix.
    pub fn supports(&self, trait_suffix: &str) -> (found: bool)
        ensures
            found == self@.supports(trait_suffix@),
    {
        let mut i: usize = 0;
        while i < self.supported_trait_suffixes.len()
            invariant
                i <= self.supported_trait_suffixes@.len(),
                forall|j: int| 0 <= j < i ==> self@.supported_trait_suffixes[j] != trait_suffix@,
            decreases self.supported_trait_suffixes@.len() - i,
        {
            if same_text(self.supported_trait_suffixes[i], trait_suffix) {
                assert(self@.supported_trait_suffixes[i as int] == trait_suffix@);
                return true;
            }
            i += 1;
        }
        false
    }
}

} // verus!
