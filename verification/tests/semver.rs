use crate_ai_engine::is_valid_semver;
use crate_ai_engine::semver::is_component_chars;

fn chars(text: &str) -> Vec<char> {
    text.chars().collect()
}

#[test]
fn three_numeric_components_are_a_version() {
    assert!(is_valid_semver("1.0.0"));
    assert!(is_valid_semver("0.0.0"));
    assert!(is_valid_semver("10.20.30"));
    assert!(is_valid_semver("1.2.3"));
}

#[test]
fn two_components_are_no_version() {
    assert!(!is_valid_semver("1.2"));
}

#[test]
fn a_component_that_is_no_number_is_refused() {
    assert!(!is_valid_semver("1.2.x"));
    assert!(!is_valid_semver("invalid"));
    assert!(!is_valid_semver("a.b.c"));
    assert!(!is_valid_semver("1.0.0-beta"));
    assert!(!is_valid_semver("v1.0.0"));
    assert!(!is_valid_semver("1.0.0a"));
}

#[test]
fn other_counts_of_components_are_refused() {
    assert!(!is_valid_semver(""));
    assert!(!is_valid_semver("1"));
    assert!(!is_valid_semver("1.2.3.4"));
    assert!(!is_valid_semver("1.2.3."));
    assert!(!is_valid_semver(".1.2.3"));
}

#[test]
fn empty_components_are_refused() {
    assert!(!is_valid_semver(".."));
    assert!(!is_valid_semver("1..3"));
    assert!(!is_valid_semver(".2.3"));
    assert!(!is_valid_semver("1.2."));
}

#[test]
fn leading_zeros_are_allowed() {
    assert!(is_valid_semver("01.002.0003"));
    assert!(is_valid_semver("000000000000000000000000000001.0.0"));
}

#[test]
fn a_plus_sign_is_allowed_and_a_minus_sign_is_not() {
    assert!(is_valid_semver("+1.+2.+3"));
    assert!(is_valid_semver("+0.0.0"));
    assert!(!is_valid_semver("-1.0.0"));
    assert!(!is_valid_semver("1.-0.0"));
    assert!(!is_valid_semver("+.0.0"));
    assert!(!is_valid_semver("++1.0.0"));
    assert!(!is_valid_semver("1+.0.0"));
}

#[test]
fn components_are_bounded_by_32_bits() {
    assert!(is_valid_semver("4294967295.4294967295.4294967295"));
    assert!(!is_valid_semver("4294967296.0.0"));
    assert!(!is_valid_semver("0.4294967296.0"));
    assert!(!is_valid_semver("0.0.4294967296"));
    assert!(!is_valid_semver("0.0.99999999999999999999999999999999999999"));
    assert!(is_valid_semver("0.0.0000000004294967295"));
}

#[test]
fn blanks_and_other_digits_are_refused() {
    assert!(!is_valid_semver(" 1.0.0"));
    assert!(!is_valid_semver("1.0.0 "));
    assert!(!is_valid_semver("1. 0.0"));
    assert!(!is_valid_semver("1.0.0\n"));
    assert!(!is_valid_semver("١.٢.٣"));
    assert!(!is_valid_semver("1.0.０"));
}

#[test]
fn version_check_agrees_with_the_standard_parser() {
    let samples = [
        "1.0.0", "1.2", "1.2.x", "", "..", "+1.2.3", "-1.2.3", "1.2.3.4", "01.1.1",
        "4294967295.0.0", "4294967296.0.0", "1.0.0 ", "1,0,0", "1.0.+", "١.٢.٣",
        "18446744073709551616.0.0", "0.0.0", "+.+.+", "1.+0.0",
    ];
    for version in samples {
        let parts: Vec<&str> = version.split('.').collect();
        let expected = parts.len() == 3 && parts.iter().all(|p| p.parse::<u32>().is_ok());
        assert_eq!(is_valid_semver(version), expected, "{:?}", version);
    }
}

#[test]
fn component_of_characters() {
    assert!(is_component_chars(&chars("0")));
    assert!(is_component_chars(&chars("42")));
    assert!(is_component_chars(&chars("+42")));
    assert!(is_component_chars(&chars("4294967295")));
    assert!(!is_component_chars(&chars("4294967296")));
    assert!(!is_component_chars(&chars("")));
    assert!(!is_component_chars(&chars("+")));
    assert!(!is_component_chars(&chars("-")));
    assert!(!is_component_chars(&chars("4 2")));
    assert!(!is_component_chars(&chars("42.")));
}
