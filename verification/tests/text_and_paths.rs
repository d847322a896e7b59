use era_connect::paths::{file_name, join_path};
use era_connect::text::{
    contains_text, decimal_text, join_strings, replace_text, signed_decimal_text, split_text,
};

#[test]
fn decimal_text_spells_numbers() {
    assert_eq!(decimal_text(0), "0");
    assert_eq!(decimal_text(7), "7");
    assert_eq!(decimal_text(1234), "1234");
    assert_eq!(decimal_text(u64::MAX), u64::MAX.to_string());
}

#[test]
fn signed_decimal_text_spells_negative_numbers() {
    assert_eq!(signed_decimal_text(-42), "-42");
    assert_eq!(signed_decimal_text(0), "0");
    assert_eq!(signed_decimal_text(i32::MIN), "-2147483648");
    assert_eq!(signed_decimal_text(i32::MAX), "2147483647");
}

#[test]
fn split_text_keeps_empty_pieces() {
    assert_eq!(split_text("a:b::c", ':'), vec!["a", "b", "", "c"]);
    assert_eq!(split_text("", ':'), vec![""]);
    assert_eq!(split_text(":", ':'), vec!["", ""]);
}

#[test]
fn join_strings_puts_separator_between_parts() {
    let parts = vec![String::from("a"), String::from("b"), String::from("c")];
    assert_eq!(join_strings(&parts, ":"), "a:b:c");
    assert_eq!(join_strings(&Vec::new(), ":"), "");
}

#[test]
fn replace_text_replaces_every_occurrence() {
    assert_eq!(replace_text("log4j:Event log4j:x", "log4j:", ""), "Event x");
    assert_eq!(replace_text("aaa", "aa", "b"), "ba");
    assert!(contains_text("hello world", "o w"));
    assert!(!contains_text("hello", "world"));
}

#[test]
fn join_path_follows_unix_rules() {
    assert_eq!(join_path("/data", "shared"), "/data/shared");
    assert_eq!(join_path("/data/", "shared"), "/data/shared");
    assert_eq!(join_path("/data", "/abs"), "/abs");
    assert_eq!(join_path("", "rel"), "rel");
}

#[test]
fn file_name_takes_the_last_component() {
    assert_eq!(file_name("org/lwjgl/liblwjgl.so"), Some(String::from("liblwjgl.so")));
    assert_eq!(file_name("a/b/"), Some(String::from("b")));
    assert_eq!(file_name("a/."), Some(String::from("a")));
    assert_eq!(file_name("a/.."), None);
    assert_eq!(file_name("."), None);
    assert_eq!(file_name("/"), None);
    assert_eq!(file_name(""), None);
}
