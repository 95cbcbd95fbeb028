use nexish::text::str_eq;
use nexish::text::trim_str;

#[test]
fn trimming_removes_both_ends() {
    assert_eq!(trim_str("  echo a  "), "echo a");
    assert_eq!(trim_str("\t x \n"), "x");
    assert_eq!(trim_str("no-edges"), "no-edges");
}

#[test]
fn trimming_whitespace_only_gives_empty() {
    assert_eq!(trim_str(""), "");
    assert_eq!(trim_str("   \t\n  "), "");
}

#[test]
fn inner_whitespace_is_kept() {
    assert_eq!(trim_str("  a  b  "), "a  b");
}

#[test]
fn string_equality_is_by_characters() {
    assert!(str_eq("pwd", "pwd"));
    assert!(!str_eq("pwd", "pwD"));
    assert!(!str_eq("pwd", "pwdd"));
    assert!(!str_eq("", "a"));
    assert!(str_eq("", ""));
}
