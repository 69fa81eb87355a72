use tide_openssl::text::{push_decimal, push_flag, push_joined, push_number};

fn decimal(n: u32) -> String {
    let mut out = String::new();
    push_decimal(&mut out, n);
    out
}

fn joined(items: &[&str], prefix: &str, separator: &str) -> String {
    let items: Vec<String> = items.iter().map(|s| s.to_string()).collect();
    let mut out = String::new();
    push_joined(&mut out, &items, prefix, separator);
    out
}

#[test]
fn decimal_digits_of_small_and_large_numbers() {
    assert_eq!(decimal(0), "0");
    assert_eq!(decimal(7), "7");
    assert_eq!(decimal(9), "9");
    assert_eq!(decimal(10), "10");
    assert_eq!(decimal(64), "64");
    assert_eq!(decimal(255), "255");
    assert_eq!(decimal(1000), "1000");
    assert_eq!(decimal(1234567890), "1234567890");
    assert_eq!(decimal(u32::MAX), "4294967295");
}

#[test]
fn decimal_digits_agree_with_the_standard_library() {
    let mut n: u32 = 1;
    for _ in 0..200 {
        assert_eq!(decimal(n), n.to_string());
        n = n.wrapping_mul(1664525).wrapping_add(1013904223);
    }
}

#[test]
fn decimal_digits_are_appended() {
    let mut out = String::from("ttl=");
    push_decimal(&mut out, 128);
    assert_eq!(out, "ttl=128");
}

#[test]
fn nothing_joined_is_empty() {
    assert_eq!(joined(&[], "https://", ", "), "");
}

#[test]
fn one_item_has_no_separator() {
    assert_eq!(joined(&["localhost:4433"], "https://", ", "), "https://localhost:4433");
}

#[test]
fn items_are_joined_in_order() {
    assert_eq!(
        joined(&["a:1", "b:2", "c:3"], "https://", ", "),
        "https://a:1, https://b:2, https://c:3"
    );
    assert_eq!(joined(&["a", "b"], "", ", "), "a, b");
    assert_eq!(joined(&["", ""], "", "|"), "|");
}

#[test]
fn joined_items_are_appended() {
    let items = vec![String::from("x"), String::from("y")];
    let mut out = String::from("[");
    push_joined(&mut out, &items, "", ", ");
    assert_eq!(out, "[x, y");
}

#[test]
fn flags_and_numbers_are_written_like_options() {
    let mut out = String::new();
    push_flag(&mut out, None);
    out.push(' ');
    push_flag(&mut out, Some(true));
    out.push(' ');
    push_flag(&mut out, Some(false));
    out.push(' ');
    push_number(&mut out, None);
    out.push(' ');
    push_number(&mut out, Some(0));
    out.push(' ');
    push_number(&mut out, Some(64));
    assert_eq!(out, "None Some(true) Some(false) None Some(0) Some(64)");
}
