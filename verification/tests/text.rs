use sat_helix_ide::paths::{file_name, join_path, parent_file_name, path_components, same_path};
use sat_helix_ide::text::{
    chars_of, debug_quote, parse_u64, split_lines, split_whitespace, trim_chars, u64_to_decimal,
};
use sat_helix_ide::zellij::runtime_config::session_name_node;

#[test]
fn decimal_round_trip() {
    assert_eq!(u64_to_decimal(0), "0");
    assert_eq!(u64_to_decimal(18446744073709551615), "18446744073709551615");
    assert_eq!(parse_u64(&chars_of("18446744073709551615")), Some(u64::MAX));
    assert_eq!(parse_u64(&chars_of("18446744073709551616")), None);
    assert_eq!(parse_u64(&chars_of("+7")), Some(7));
    assert_eq!(parse_u64(&chars_of("")), None);
}

#[test]
fn lines_and_words() {
    let lines: Vec<String> = split_lines(&chars_of("a\r\nb\n\nc")).into_iter().map(|l| l.into_iter().collect()).collect();
    assert_eq!(lines, vec!["a", "b", "", "c"]);
    let words: Vec<String> = split_whitespace(&chars_of("  x\ty  z ")).into_iter().map(|w| w.into_iter().collect()).collect();
    assert_eq!(words, vec!["x", "y", "z"]);
    assert_eq!(trim_chars(&chars_of(" \u{3000}q \n")), vec!['q']);
}

#[test]
fn paths_as_text() {
    assert_eq!(join_path("/a", "b"), "/a/b");
    assert_eq!(join_path("/a/", "b"), "/a/b");
    assert_eq!(join_path("/a", "/b"), "/b");
    assert_eq!(join_path("", "b"), "b");
    assert_eq!(file_name("/a/b/"), Some("b".to_string()));
    assert_eq!(file_name("/a/.."), None);
    assert_eq!(parent_file_name("/a/b/c"), Some("b".to_string()));
    assert_eq!(path_components("/a//./b").len(), 2);
    assert!(same_path("/a//b/", "/a/b"));
    assert!(!same_path("./a", "a"));
    assert!(!same_path("/a", "a"));
}

#[test]
fn debug_quoting_escapes_quotes() {
    assert_eq!(debug_quote("plain"), "\"plain\"");
    assert_eq!(debug_quote("a\"b"), "\"a\\\"b\"");
    assert_eq!(session_name_node("a\"b"), "session_name \"a\\\"b\"\n");
}
