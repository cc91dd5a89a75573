use gut::utils::is_blank_str;
use gut::utils::lower_char_exec;
use gut::utils::matches_folded;
use gut::utils::pad_str;
use gut::utils::split_lines;

#[test]
fn pad_centres_with_extra_space_on_the_right() {
    assert_eq!(pad_str("ab", 5), " ab  ");
    assert_eq!(pad_str("PUSH", 10), "   PUSH   ");
    assert_eq!(pad_str("", 2), "  ");
}

#[test]
fn pad_keeps_strings_at_or_over_the_width() {
    assert_eq!(pad_str("abc", 3), "abc");
    assert_eq!(pad_str("abcd", 2), "abcd");
    assert_eq!(pad_str("x", 0), "x");
}

#[test]
fn blankness() {
    assert!(is_blank_str(""));
    assert!(is_blank_str(" \t\r\n"));
    assert!(!is_blank_str(" x "));
}

#[test]
fn line_splitting() {
    assert_eq!(split_lines("a\nb"), vec!["a".to_string(), "b".to_string()]);
    assert_eq!(split_lines("a\nb\n"), vec!["a".to_string(), "b".to_string()]);
    assert_eq!(split_lines(""), Vec::<String>::new());
    assert_eq!(split_lines("\n"), vec!["".to_string()]);
    assert_eq!(
        split_lines("a\n\nb"),
        vec!["a".to_string(), "".to_string(), "b".to_string()]
    );
}

#[test]
fn line_splitting_strips_the_separator_carriage_return() {
    assert_eq!(split_lines("a\r\nb\r\n"), vec!["a".to_string(), "b".to_string()]);
    assert_eq!(split_lines("a\r\nb"), vec!["a".to_string(), "b".to_string()]);
    // a carriage return without a following newline stays in its line
    assert_eq!(split_lines("a\r"), vec!["a\r".to_string()]);
    assert_eq!(split_lines("a\rb\n"), vec!["a\rb".to_string()]);
    assert_eq!(split_lines("\r\n"), vec!["".to_string()]);
}

#[test]
fn folding() {
    assert_eq!(lower_char_exec('A'), 'a');
    assert_eq!(lower_char_exec('Z'), 'z');
    assert_eq!(lower_char_exec('m'), 'm');
    assert_eq!(lower_char_exec('-'), '-');
    assert!(matches_folded("ChErRy-PiCk", "cherry-pick"));
    assert!(matches_folded("quit", "quit"));
    assert!(!matches_folded("cherry", "cherry-pick"));
    assert!(!matches_folded("quip", "quit"));
}
