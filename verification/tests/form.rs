use httping::form::{encode_form_value, form_safe, push_form_value};

#[test]
fn plain_values_go_in_as_they_are() {
    assert_eq!(encode_form_value(""), "");
    assert_eq!(encode_form_value("www.example.com"), "www.example.com");
    assert_eq!(encode_form_value("AZaz09*-._"), "AZaz09*-._");
}

#[test]
fn a_space_becomes_a_plus() {
    assert_eq!(encode_form_value("a b  c"), "a+b++c");
}

#[test]
fn other_bytes_become_percent_and_two_uppercase_digits() {
    assert_eq!(encode_form_value("&"), "%26");
    assert_eq!(encode_form_value("="), "%3D");
    assert_eq!(encode_form_value("+"), "%2B");
    assert_eq!(encode_form_value("%"), "%25");
    assert_eq!(encode_form_value("~"), "%7E");
    assert_eq!(encode_form_value("/?#"), "%2F%3F%23");
    assert_eq!(encode_form_value("\u{0}\n\u{7f}"), "%00%0A%7F");
    assert_eq!(encode_form_value("é"), "%C3%A9");
    assert_eq!(encode_form_value("名"), "%E5%90%8D");
    assert_eq!(encode_form_value("\u{1F600}"), "%F0%9F%98%80");
}

#[test]
fn the_edges_of_the_safe_ranges() {
    assert_eq!(encode_form_value("/0"), "%2F0");
    assert_eq!(encode_form_value("9:"), "9%3A");
    assert_eq!(encode_form_value("@A"), "%40A");
    assert_eq!(encode_form_value("Z["), "Z%5B");
    assert_eq!(encode_form_value("`a"), "%60a");
    assert_eq!(encode_form_value("z{"), "z%7B");
    assert_eq!(encode_form_value("),"), "%29%2C");
}

#[test]
fn form_safe_tells_the_bytes_that_stay() {
    let safe: Vec<u8> = (0..=255u8).filter(|b| form_safe(*b)).collect();
    let expected: Vec<u8> = b"*-.0123456789ABCDEFGHIJKLMNOPQRSTUVWXYZ_abcdefghijklmnopqrstuvwxyz".to_vec();
    assert_eq!(safe, expected);
}

#[test]
fn push_form_value_appends_to_what_is_there() {
    let mut out = String::from("host=");
    push_form_value(&mut out, "a b");
    push_form_value(&mut out, "&");
    assert_eq!(out, "host=a+b%26");
}
