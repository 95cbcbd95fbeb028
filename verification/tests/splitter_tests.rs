use nexish::split::split_pipeline;

#[test]
fn whitespace_only_line_yields_no_stages() {
    assert_eq!(split_pipeline(""), Vec::<String>::new());
    assert_eq!(split_pipeline("   "), Vec::<String>::new());
    assert_eq!(split_pipeline(" \t \n "), Vec::<String>::new());
}

#[test]
fn splits_on_pipes_in_order() {
    assert_eq!(split_pipeline("echo a|echo b"), vec!["echo a".to_string(), "echo b".to_string()]);
}

#[test]
fn trims_each_segment() {
    assert_eq!(
        split_pipeline("  echo a  |  echo b  "),
        vec!["echo a".to_string(), "echo b".to_string()]
    );
}

#[test]
fn keeps_empty_segments_for_later_skipping() {
    assert_eq!(
        split_pipeline("a||b"),
        vec!["a".to_string(), "".to_string(), "b".to_string()]
    );
    assert_eq!(split_pipeline("a|"), vec!["a".to_string(), "".to_string()]);
}

#[test]
fn line_without_pipe_is_one_segment() {
    assert_eq!(split_pipeline("ls -la src"), vec!["ls -la src".to_string()]);
}

#[test]
fn pipe_inside_quotes_still_splits() {
    // Quoting is resolved only later, per stage: this layer splits anyway.
    assert_eq!(
        split_pipeline("echo 'a|b'"),
        vec!["echo 'a".to_string(), "b'".to_string()]
    );
}
