use endpoint_server::text::{
    chars_of, contains_char, contains_chars, decimal_string, join_lines, last_segment_of,
    push_decimal, push_line, push_two_digits,
};

fn chars(s: &str) -> Vec<char> {
    s.chars().collect()
}

#[test]
fn chars_of_a_string() {
    assert_eq!(chars_of("héllo"), vec!['h', 'é', 'l', 'l', 'o']);
    assert_eq!(chars_of(""), Vec::<char>::new());
}

#[test]
fn decimal_notation() {
    assert_eq!(decimal_string(0), "0");
    assert_eq!(decimal_string(7), "7");
    assert_eq!(decimal_string(9), "9");
    assert_eq!(decimal_string(1234567890), "1234567890");
    assert_eq!(decimal_string(10), "10");
    assert_eq!(decimal_string(3000), "3000");
    assert_eq!(decimal_string(65535), "65535");
    assert_eq!(decimal_string(u64::MAX), "18446744073709551615");
    let mut s = "n=".to_string();
    push_decimal(&mut s, 1203);
    assert_eq!(s, "n=1203");
}

#[test]
fn two_digit_notation() {
    let mut s = String::new();
    push_two_digits(&mut s, 0);
    push_two_digits(&mut s, 7);
    push_two_digits(&mut s, 10);
    push_two_digits(&mut s, 99);
    assert_eq!(s, "00071099");
    let mut wide = String::new();
    push_two_digits(&mut wide, 100);
    push_two_digits(&mut wide, 12345);
    assert_eq!(wide, "10012345");
}

#[test]
fn last_segment_is_what_follows_the_last_separator() {
    assert_eq!(last_segment_of("/api/user/123", '/'), "123");
    assert_eq!(last_segment_of("/api/user/", '/'), "");
    assert_eq!(last_segment_of("123", '/'), "123");
    assert_eq!(last_segment_of("", '/'), "");
    assert_eq!(last_segment_of("/", '/'), "");
    assert_eq!(last_segment_of("a//b", '/'), "b");
    assert_eq!(last_segment_of("a.b.c", '.'), "c");
    assert_eq!(last_segment_of("/ä/ö", '/'), "ö");
}

#[test]
fn substring_search() {
    assert!(contains_chars(&chars("hello world"), &chars("lo w")));
    assert!(contains_chars(&chars("hello"), &chars("hello")));
    assert!(contains_chars(&chars("hello"), &chars("")));
    assert!(contains_chars(&chars(""), &chars("")));
    assert!(contains_chars(&chars("aab"), &chars("ab")));
    assert!(contains_chars(&chars("hello"), &chars("o")));
    assert!(!contains_chars(&chars("hello"), &chars("hello!")));
    assert!(!contains_chars(&chars("hello"), &chars("lol")));
    assert!(!contains_chars(&chars(""), &chars("a")));
}

#[test]
fn char_search() {
    assert!(contains_char(&chars("a{b"), '{'));
    assert!(!contains_char(&chars("a{b"), '}'));
    assert!(!contains_char(&chars(""), '{'));
}

#[test]
fn joining_lines() {
    let mut lines: Vec<String> = Vec::new();
    assert_eq!(join_lines(&lines), "");
    push_line(&mut lines, "one".to_string());
    assert_eq!(join_lines(&lines), "one");
    push_line(&mut lines, String::new());
    push_line(&mut lines, "three".to_string());
    assert_eq!(lines.len(), 3);
    assert_eq!(join_lines(&lines), "one\n\nthree");
}
