use input0::errors::AppError;
use input0::paths::join_path;
use input0::text::{decimal_string, is_blank_str, join_strings, starts_with, str_eq};

#[test]
fn path_joining() {
    assert_eq!(join_path("/a", "b"), "/a/b");
    assert_eq!(join_path("/a/", "b"), "/a/b");
    assert_eq!(join_path("", "b"), "b");
    assert_eq!(join_path("/a", "/etc"), "/etc");
    assert_eq!(join_path("/a", ""), "/a/");
}

#[test]
fn string_helpers() {
    assert_eq!(decimal_string(0), "0");
    assert_eq!(decimal_string(10), "10");
    assert_eq!(decimal_string(18446744073709551615), "18446744073709551615");
    assert_eq!(join_strings(&[], ", "), "");
    assert_eq!(join_strings(&["a".to_string()], ", "), "a");
    assert_eq!(join_strings(&["a".to_string(), "b".to_string(), "c".to_string()], ", "), "a, b, c");
    assert!(str_eq("你好", "你好"));
    assert!(!str_eq("你好", "你"));
    assert!(starts_with("yes please", "yes"));
    assert!(!starts_with("ye", "yes"));
    assert!(is_blank_str(" \u{3000}\t\n"));
    assert!(!is_blank_str(" x "));
}

#[test]
fn error_messages() {
    assert_eq!(AppError::Config("c".to_string()).message(), "Configuration error: c");
    assert_eq!(AppError::Audio("a".to_string()).message(), "Audio error: a");
    assert_eq!(AppError::Whisper("w".to_string()).message(), "Whisper error: w");
    assert_eq!(AppError::Llm("l".to_string()).message(), "LLM error: l");
    assert_eq!(AppError::Input("i".to_string()).message(), "Input error: i");
    assert_eq!(AppError::Vocabulary("v".to_string()).message(), "Vocabulary error: v");
    let io = std::io::Error::new(std::io::ErrorKind::Other, "disk full");
    assert_eq!(AppError::Io(io).message(), "IO error: disk full");
}
