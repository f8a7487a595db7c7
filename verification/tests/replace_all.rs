use regex::Regex;
use string_replace_all::{string_replace_all, StringReplaceAll};

#[test]
fn test_basic_replacement() {
    let input = "Hello world! Hello Rust!";
    let result = string_replace_all(input, "Hello", "Hi");
    assert_eq!(result, "Hi world! Hi Rust!");
}

#[test]
fn test_no_occurrences() {
    let input = "Hello world!";
    let result = string_replace_all(input, "Goodbye", "Hi");
    assert_eq!(result, "Hello world!");
}

#[test]
fn test_replace_multiple_spaces() {
    let input = "Hello        world!     This      is       Rust.";
    let result = string_replace_all(input, "  ", " ");
    assert_eq!(result, "Hello world! This is Rust.");
}

#[test]
fn test_replace_multiple_spaces_doubled() {
    let input = "Hello    world!    This    is    Rust.";
    let result = string_replace_all(input, "    ", "  ");
    assert_eq!(result, "Hello  world!  This  is  Rust.");
}

#[test]
fn test_replace_entire_string() {
    let input = "Hello";
    let result = string_replace_all(input, "Hello", "Hi");
    assert_eq!(result, "Hi");
}

#[test]
fn test_replace_with_empty_string() {
    let input = "Hello world!";
    let result = string_replace_all(input, "world!", "");
    assert_eq!(result, "Hello ");
}

#[test]
fn test_replace_empty_string() {
    let input = "Hello world!";
    let result = string_replace_all(input, "", "X");
    assert_eq!(result, "Hello world!");
}

#[test]
fn test_multi_line() {
    let input = r#"Hello (line 1)
        world! (line 2)"#;

    let result = {
        let result = string_replace_all(input, "\n", "");
        let result = string_replace_all(&result, "\r", "");
        let result = string_replace_all(&result, " (line 1)", "");
        let result = string_replace_all(&result, " (line 2)", "");
        string_replace_all(&result, "  ", " ")
    };

    assert_eq!(result, "Hello world!");
}

#[test]
fn test_replace_with_special_characters() {
    let input = "Regex test with $pecial characters!";
    let result = string_replace_all(input, "$pecial", "special");
    assert_eq!(result, "Regex test with special characters!");
}

#[test]
fn test_replace_newlines() {
    let input = "Line1\nLine2\nLine3";
    let result = string_replace_all(input, "\n", " | ");
    assert_eq!(result, "Line1 | Line2 | Line3");
}

#[test]
fn test_replace_unicode() {
    let input = "Привет мир! こんにちは世界!";
    let result = string_replace_all(input, "мир", "Rust");
    assert_eq!(result, "Привет Rust! こんにちは世界!");
}

#[test]
fn test_regex_replacement() {
    let text = "I think Ruth's dog is cuter than your dog!";
    let regex = regex::Regex::new("(?i)Dog").unwrap();

    let result = string_replace_all(text, &regex, "ferret");
    assert_eq!(result, "I think Ruth's ferret is cuter than your ferret!");
}

#[test]
fn test_string_replace_all() {
    let input = "Hello world!".to_string();
    let result = input.replace_all("world", "Rust");

    assert_eq!(result, "Hello Rust!");
}

#[test]
fn test_str_replace_all() {
    let input = "Hello world!";
    let result = input.replace_all("world", "Rust");

    assert_eq!(result, "Hello Rust!");
}

#[test]
fn test_regex_replace_all() {
    let input = "I love RustLang and rust programming!".to_string();
    let regex = Regex::new("(?i)rust").unwrap();

    let result = input.replace_all(&regex, "Go");

    assert_eq!(result, "I love GoLang and Go programming!");
}

#[test]
fn test_replace_special_characters() {
    let input = "Replace * special ** characters!".to_string();
    let result = input.replace_all("*", "-");

    assert_eq!(result, "Replace - special -- characters!");
}

#[test]
fn lib_test_replace_entire_string() {
    let input = "Completely replace this".to_string();
    let result = input.replace_all("Completely replace this", "Done");

    assert_eq!(result, "Done");
}
