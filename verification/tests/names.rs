use calm_ops::implementation::trait_method_suffix;
use calm_ops::operator::BinaryOperator;
use calm_ops::text::same_text;
use calm_ops::util::{method_name, trait_name};

const PLAIN: [(BinaryOperator, BinaryOperator, &str, &str); 10] = [
    (BinaryOperator::Add, BinaryOperator::AddAssign, "Add", "add"),
    (BinaryOperator::Sub, BinaryOperator::SubAssign, "Sub", "sub"),
    (BinaryOperator::Mul, BinaryOperator::MulAssign, "Mul", "mul"),
    (BinaryOperator::Div, BinaryOperator::DivAssign, "Div", "div"),
    (BinaryOperator::Rem, BinaryOperator::RemAssign, "Rem", "rem"),
    (BinaryOperator::BitXor, BinaryOperator::BitXorAssign, "BitXor", "bitxor"),
    (BinaryOperator::BitAnd, BinaryOperator::BitAndAssign, "BitAnd", "bitand"),
    (BinaryOperator::BitOr, BinaryOperator::BitOrAssign, "BitOr", "bitor"),
    (BinaryOperator::Shl, BinaryOperator::ShlAssign, "Shl", "shl"),
    (BinaryOperator::Shr, BinaryOperator::ShrAssign, "Shr", "shr"),
];

const UNNAMED: [BinaryOperator; 8] = [
    BinaryOperator::And,
    BinaryOperator::Or,
    BinaryOperator::Eq,
    BinaryOperator::Lt,
    BinaryOperator::Le,
    BinaryOperator::Ne,
    BinaryOperator::Ge,
    BinaryOperator::Gt,
];

#[test]
fn operators_are_named_after_their_traits_and_methods() {
    for (operator, _, trait_text, method_text) in PLAIN {
        assert_eq!(trait_name(&operator), Some(trait_text));
        assert_eq!(method_name(&operator), Some(method_text));
    }
}

#[test]
fn assignments_are_named_after_their_operators() {
    for (_, assignment, trait_text, method_text) in PLAIN {
        assert_eq!(trait_name(&assignment), Some(format!("{}Assign", trait_text).as_str()));
        assert_eq!(method_name(&assignment), Some(format!("{}_assign", method_text).as_str()));
    }
    assert_eq!(trait_name(&BinaryOperator::ShlAssign), Some("ShlAssign"));
    assert_eq!(method_name(&BinaryOperator::ShlAssign), Some("shl_assign"));
    assert_eq!(method_name(&BinaryOperator::BitXorAssign), Some("bitxor_assign"));
}

#[test]
fn logical_operators_and_comparisons_have_no_name() {
    for operator in UNNAMED {
        assert_eq!(trait_name(&operator), None);
        assert_eq!(method_name(&operator), None);
        assert_eq!(trait_method_suffix(&operator), None);
    }
}

#[test]
fn names_and_suffixes_agree() {
    for (operator, assignment, _, _) in PLAIN {
        let (trait_suffix, method_suffix) = trait_method_suffix(&operator).unwrap();
        assert_eq!(trait_name(&operator), Some(trait_suffix));
        assert_eq!(method_name(&operator), Some(method_suffix));
        assert_eq!(trait_method_suffix(&assignment), None);
    }
}

#[test]
fn exclusive_or_is_not_named_like_inclusive_or() {
    assert_eq!(method_name(&BinaryOperator::BitXor), Some("bitxor"));
    assert_eq!(method_name(&BinaryOperator::BitOr), Some("bitor"));
    assert_eq!(trait_method_suffix(&BinaryOperator::BitXor), Some(("BitXor", "bitxor")));
    assert_eq!(trait_method_suffix(&BinaryOperator::BitOr), Some(("BitOr", "bitor")));
}

#[test]
fn same_text_compares_characters() {
    assert!(same_text("", ""));
    assert!(same_text("Add", "Add"));
    assert!(!same_text("Add", "add"));
    assert!(!same_text("Add", "Ad"));
    assert!(!same_text("Ad", "Add"));
    assert!(!same_text("Add", "Adc"));
    assert!(!same_text("", "Add"));
    assert!(same_text(&String::from("Shl"), "Shl"));
}

#[test]
fn same_text_compares_characters_beyond_ascii() {
    assert!(same_text("Größe", "Größe"));
    assert!(!same_text("Größe", "Grösse"));
    assert!(!same_text("é", "e\u{301}"));
    assert!(!same_text("ab", "a\u{0}"));
}
