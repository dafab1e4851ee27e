use minigrep::lines::split_lines;
use minigrep::text::str_contains;

#[test]
fn empty_text_has_no_lines() {
    assert!(split_lines("").is_empty());
}

#[test]
fn trailing_newline_opens_no_line() {
    assert_eq!(vec!["a", "b"], split_lines("a\nb\n"));
    assert_eq!(vec!["a", "b"], split_lines("a\nb"));
}

#[test]
fn carriage_return_before_newline_is_stripped() {
    assert_eq!(vec!["a", "b"], split_lines("a\r\nb\r\n"));
    assert_eq!(vec![""], split_lines("\r\n"));
}

#[test]
fn lone_carriage_return_stays_in_the_line() {
    assert_eq!(vec!["a\rb"], split_lines("a\rb"));
    assert_eq!(vec!["a\r"], split_lines("a\r"));
}

#[test]
fn newline_alone_is_one_empty_line() {
    assert_eq!(vec![""], split_lines("\n"));
    assert_eq!(vec!["", ""], split_lines("\n\n"));
}

#[test]
fn contains_finds_substrings() {
    assert!(str_contains("safe, fast, productive.", "duct"));
    assert!(str_contains("abc", "abc"));
    assert!(str_contains("abc", ""));
    assert!(str_contains("", ""));
    assert!(!str_contains("abc", "abcd"));
    assert!(!str_contains("", "a"));
    assert!(!str_contains("abc", "ABC"));
}
