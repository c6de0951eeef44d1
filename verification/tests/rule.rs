use life::{ParseError, Rule};
use std::collections::HashSet;

#[test]
fn valid_rule() {
    let rule = Rule::try_from("B3/S23").unwrap();

    assert_eq!(*rule.birth(), [3].into_iter().collect());
    assert_eq!(*rule.survival(), [2, 3].into_iter().collect());
}

#[test]
fn empty_birth_and_survival() {
    let rule = Rule::try_from("B/S").unwrap();

    assert_eq!(*rule.birth(), HashSet::new());
    assert_eq!(*rule.survival(), HashSet::new());
}

#[test]
fn invalid_format_no_slash() {
    let result = Rule::try_from("B3S23");

    assert!(matches!(result, Err(ParseError::InvalidFormat)));
}

#[test]
fn invalid_format_wrong_prefix() {
    let result = Rule::try_from("A3/S23");

    assert!(matches!(result, Err(ParseError::InvalidFormat)));
}

#[test]
fn invalid_number_in_birth() {
    let result = Rule::try_from("B3x/S23");

    assert!(matches!(result, Err(ParseError::InvalidNumber)));
}

#[test]
fn invalid_number_in_survival() {
    let result = Rule::try_from("B3/Sx3");

    assert!(matches!(result, Err(ParseError::InvalidNumber)));
}

#[test]
fn parse_agrees_with_try_from() {
    let rule = Rule::parse("B36/S23").unwrap();

    assert_eq!(*rule.birth(), [3, 6].into_iter().collect());
    assert_eq!(*rule.survival(), [2, 3].into_iter().collect());
}

#[test]
fn seeds_rule_has_no_survivors() {
    let rule = Rule::parse("B2/S").unwrap();

    assert_eq!(*rule.birth(), [2].into_iter().collect());
    assert_eq!(*rule.survival(), HashSet::new());
}

#[test]
fn repeated_and_unsorted_digits_collapse() {
    let rule = Rule::parse("B3313/S322").unwrap();

    assert_eq!(*rule.birth(), [1, 3].into_iter().collect());
    assert_eq!(*rule.survival(), [2, 3].into_iter().collect());
}

#[test]
fn every_digit_is_one_count() {
    let rule = Rule::parse("B0123456789/S10").unwrap();

    assert_eq!(*rule.birth(), (0..=9).collect());
    assert_eq!(*rule.survival(), [0, 1].into_iter().collect());
}

#[test]
fn counts_above_eight_are_accepted() {
    let rule = Rule::parse("B9/S9").unwrap();

    assert!(rule.is_born(9));
    assert!(rule.is_survivor(9));
    assert!(!rule.is_born(8));
}

#[test]
fn more_than_one_slash_is_invalid_format() {
    assert!(matches!(Rule::parse("B3/S2/3"), Err(ParseError::InvalidFormat)));
    assert!(matches!(Rule::parse("B3//S23"), Err(ParseError::InvalidFormat)));
    assert!(matches!(Rule::parse("B3/S23/"), Err(ParseError::InvalidFormat)));
}

#[test]
fn missing_letters_are_invalid_format() {
    assert!(matches!(Rule::parse(""), Err(ParseError::InvalidFormat)));
    assert!(matches!(Rule::parse("/"), Err(ParseError::InvalidFormat)));
    assert!(matches!(Rule::parse("B3/"), Err(ParseError::InvalidFormat)));
    assert!(matches!(Rule::parse("/S23"), Err(ParseError::InvalidFormat)));
    assert!(matches!(Rule::parse("3/S23"), Err(ParseError::InvalidFormat)));
    assert!(matches!(Rule::parse("B3/23"), Err(ParseError::InvalidFormat)));
    assert!(matches!(Rule::parse("S23/B3"), Err(ParseError::InvalidFormat)));
}

#[test]
fn letters_are_case_sensitive() {
    assert!(matches!(Rule::parse("b3/S23"), Err(ParseError::InvalidFormat)));
    assert!(matches!(Rule::parse("B3/s23"), Err(ParseError::InvalidFormat)));
}

#[test]
fn format_is_judged_before_digits() {
    assert!(matches!(Rule::parse("Bx/T23"), Err(ParseError::InvalidFormat)));
    assert!(matches!(Rule::parse("Bx3S2y"), Err(ParseError::InvalidFormat)));
}

#[test]
fn anything_but_a_decimal_digit_is_invalid_number() {
    assert!(matches!(Rule::parse("B 3/S23"), Err(ParseError::InvalidNumber)));
    assert!(matches!(Rule::parse("B3/S2-3"), Err(ParseError::InvalidNumber)));
    assert!(matches!(Rule::parse("BB/S"), Err(ParseError::InvalidNumber)));
    assert!(matches!(Rule::parse("B3/SS"), Err(ParseError::InvalidNumber)));
    assert!(matches!(Rule::parse("B\u{0663}/S23"), Err(ParseError::InvalidNumber)));
    assert!(matches!(Rule::parse("B3/S2\u{00e9}"), Err(ParseError::InvalidNumber)));
}

#[test]
fn default_rule_is_classic_life() {
    let rule = Rule::default();

    assert_eq!(*rule.birth(), [3].into_iter().collect());
    assert_eq!(*rule.survival(), [2, 3].into_iter().collect());
}

#[test]
fn new_keeps_the_sets_as_given() {
    let rule = Rule::new([1, 200].into_iter().collect(), HashSet::new());

    assert_eq!(*rule.birth(), [1, 200].into_iter().collect());
    assert_eq!(*rule.survival(), HashSet::new());
    assert!(rule.is_born(1));
    assert!(rule.is_born(200));
    assert!(!rule.is_born(2));
    assert!(!rule.is_survivor(1));
}

#[test]
fn membership_follows_the_sets() {
    let rule = Rule::parse("B3/S23").unwrap();

    for count in 0..=8u8 {
        assert_eq!(rule.is_born(count), count == 3);
        assert_eq!(rule.is_survivor(count), count == 2 || count == 3);
    }
}
