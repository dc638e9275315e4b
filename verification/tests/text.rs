use sql::text::{connect, push_decimal, push_signed_decimal};

fn decimal(n: u64) -> String {
    let mut out = String::new();
    push_decimal(&mut out, n);
    out
}

fn signed(i: i64) -> String {
    let mut out = String::new();
    push_signed_decimal(&mut out, i);
    out
}

#[test]
fn numbers_are_rendered_in_decimal() {
    assert_eq!(decimal(0), "0");
    assert_eq!(decimal(7), "7");
    assert_eq!(decimal(10), "10");
    assert_eq!(decimal(12345), "12345");
    assert_eq!(decimal(9007199254740993), "9007199254740993");
    assert_eq!(decimal(u64::MAX), "18446744073709551615");
    assert_eq!(signed(0), "0");
    assert_eq!(signed(42), "42");
    assert_eq!(signed(-1), "-1");
    assert_eq!(signed(-900), "-900");
    assert_eq!(signed(i64::MAX), "9223372036854775807");
    assert_eq!(signed(i64::MIN), "-9223372036854775808");
}

#[test]
fn a_rendering_is_appended_to_what_is_there() {
    let mut out = "column ".to_string();
    push_decimal(&mut out, 3);
    out.push_str(", code ");
    push_signed_decimal(&mut out, -21);
    assert_eq!(out, "column 3, code -21");
}

#[test]
fn parts_are_joined_with_the_separator_between_them() {
    let parts = vec!["a".to_string(), "b".to_string(), "c".to_string()];
    assert_eq!(connect(&parts, ", "), "a, b, c");
    assert_eq!(connect(&parts, ""), "abc");
    assert_eq!(connect(&vec!["only".to_string()], ", "), "only");
    assert_eq!(connect(&Vec::new(), ", "), "");
    assert_eq!(connect(&vec![String::new(), String::new()], "-"), "-");
}
