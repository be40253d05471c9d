use nomad_rs_api::text::{bool_str, i64_text, names_match, u64_text};

#[test]
fn decimal_forms() {
    assert_eq!(u64_text(0), "0");
    assert_eq!(u64_text(9), "9");
    assert_eq!(u64_text(10), "10");
    assert_eq!(u64_text(42), "42");
    assert_eq!(u64_text(u64::MAX), "18446744073709551615");
    assert_eq!(i64_text(-3), "-3");
    assert_eq!(i64_text(0), "0");
    assert_eq!(i64_text(i64::MIN), "-9223372036854775808");
    assert_eq!(i64_text(i64::MAX), "9223372036854775807");
}

#[test]
fn flag_forms() {
    assert_eq!(bool_str(true), "true");
    assert_eq!(bool_str(false), "false");
}

#[test]
fn header_names_ignore_ascii_case() {
    assert!(names_match("X-Nomad-Token", "x-nomad-token"));
    assert!(names_match("ACCEPT", "accept"));
    assert!(!names_match("X-Nomad-Token", "X-Nomad-Tokens"));
    assert!(!names_match("a-b", "a_b"));
    assert!(names_match("", ""));
}

