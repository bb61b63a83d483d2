use syntax_tour::longest;
use syntax_tour::text::{data_label, decimal_string};

#[test]
fn longest_returns_the_longer_text() {
    assert_eq!(longest("Hello", "World!"), "World!");
    assert_eq!(longest("World!", "Hello"), "World!");
}

#[test]
fn longest_returns_the_second_of_equally_long_texts() {
    assert_eq!(longest("ab", "cd"), "cd");
    assert_eq!(longest("cd", "ab"), "ab");
    assert_eq!(longest("", ""), "");
}

#[test]
fn longest_with_an_empty_text() {
    assert_eq!(longest("", "a"), "a");
    assert_eq!(longest("a", ""), "a");
}

#[test]
fn longest_measures_bytes() {
    assert_eq!(longest("é", "ab"), "ab");
    assert_eq!(longest("éé", "abc"), "éé");
}

#[test]
fn decimal_string_of_small_and_large_numbers() {
    assert_eq!(decimal_string(0), "0");
    assert_eq!(decimal_string(7), "7");
    assert_eq!(decimal_string(9), "9");
    assert_eq!(decimal_string(10), "10");
    assert_eq!(decimal_string(25), "25");
    assert_eq!(decimal_string(100), "100");
    assert_eq!(decimal_string(1234567890), "1234567890");
    assert_eq!(decimal_string(u32::MAX), "4294967295");
}

#[test]
fn decimal_string_agrees_with_the_standard_rendering() {
    for n in [0u32, 1, 9, 10, 11, 99, 101, 1000, 65535, 65536, 999999999, 4000000000] {
        assert_eq!(decimal_string(n), n.to_string());
    }
}

#[test]
fn data_label_names_the_source() {
    assert_eq!(data_label("http://example.com"), "Data from http://example.com");
    assert_eq!(data_label(""), "Data from ");
}
