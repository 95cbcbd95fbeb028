use nexish::highlight::argument_kind;
use nexish::highlight::split_whitespace_words;
use nexish::highlight::ShellHighlighter;
use nexish::highlight::TokenKind;

fn strings(items: &[&str]) -> Vec<String> {
    items.iter().map(|s| s.to_string()).collect()
}

#[test]
fn words_are_maximal_nonspace_runs() {
    assert_eq!(split_whitespace_words("  a  b "), strings(&["a", "b"]));
    assert_eq!(split_whitespace_words("one"), strings(&["one"]));
    assert_eq!(split_whitespace_words("   "), Vec::<String>::new());
    assert_eq!(split_whitespace_words("ls -l\tsrc"), strings(&["ls", "-l", "src"]));
}

#[test]
fn argument_shapes_are_classed() {
    assert_eq!(argument_kind("-l"), TokenKind::Flag);
    assert_eq!(argument_kind("./run"), TokenKind::PathLike);
    assert_eq!(argument_kind("a/b"), TokenKind::PathLike);
    assert_eq!(argument_kind("hello"), TokenKind::Plain);
}

#[test]
fn known_commands_are_recognized() {
    let highlighter = ShellHighlighter::new(strings(&["ls", "cd", "exit"]));
    assert!(highlighter.is_known_command("ls"));
    assert!(!highlighter.is_known_command("nosuchprog123"));
}

#[test]
fn a_line_is_classed_piece_by_piece() {
    let highlighter = ShellHighlighter::new(strings(&["ls", "cd"]));
    let segments = highlighter.highlight_segments("ls -l src");
    let pieces: Vec<(TokenKind, &str)> =
        segments.iter().map(|s| (s.kind, s.text.as_str())).collect();
    assert_eq!(
        pieces,
        vec![
            (TokenKind::Command, "ls"),
            (TokenKind::Separator, " "),
            (TokenKind::Flag, "-l"),
            (TokenKind::Separator, " "),
            (TokenKind::Plain, "src"),
        ]
    );
}

#[test]
fn unknown_first_word_is_classed_unknown() {
    let highlighter = ShellHighlighter::new(strings(&["ls"]));
    let segments = highlighter.highlight_segments("python x.py");
    assert_eq!(segments[0].kind, TokenKind::Unknown);
    assert_eq!(segments[0].text, "python");
    assert_eq!(segments[2].kind, TokenKind::Plain);
}

#[test]
fn blank_line_has_no_pieces() {
    let highlighter = ShellHighlighter::new(strings(&["ls"]));
    assert_eq!(highlighter.highlight_segments("  ").len(), 0);
}
