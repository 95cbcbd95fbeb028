use nexish::builtins::cd_target;
use nexish::builtins::has_operands;
use nexish::builtins::parse_ls_args;
use nexish::builtins::parse_mkdir_args;
use nexish::builtins::CdTarget;

fn strings(items: &[&str]) -> Vec<String> {
    items.iter().map(|s| s.to_string()).collect()
}

#[test]
fn ls_defaults_to_current_directory() {
    let options = parse_ls_args(&strings(&[]));
    assert!(!options.all);
    assert!(!options.long);
    assert_eq!(options.path, ".");
}

#[test]
fn ls_reads_each_flag() {
    let options = parse_ls_args(&strings(&["-a"]));
    assert!(options.all && !options.long);

    let options = parse_ls_args(&strings(&["-l"]));
    assert!(!options.all && options.long);

    let options = parse_ls_args(&strings(&["-la"]));
    assert!(options.all && options.long);

    let options = parse_ls_args(&strings(&["-al"]));
    assert!(options.all && options.long);

    let options = parse_ls_args(&strings(&["-a", "-l"]));
    assert!(options.all && options.long);
}

#[test]
fn ls_takes_the_last_named_directory() {
    let options = parse_ls_args(&strings(&["src", "-l", "docs"]));
    assert!(options.long);
    assert_eq!(options.path, "docs");
}

#[test]
fn ls_treats_unknown_flags_as_a_path() {
    let options = parse_ls_args(&strings(&["-x"]));
    assert_eq!(options.path, "-x");
}

#[test]
fn mkdir_collects_targets_in_order() {
    let plan = parse_mkdir_args(&strings(&["a", "b"]));
    assert!(!plan.recursive);
    assert_eq!(plan.targets, strings(&["a", "b"]));
}

#[test]
fn mkdir_parents_flag_applies_to_all_targets() {
    let plan = parse_mkdir_args(&strings(&["-p", "a/b/c"]));
    assert!(plan.recursive);
    assert_eq!(plan.targets, strings(&["a/b/c"]));

    let plan = parse_mkdir_args(&strings(&["a", "-p", "b"]));
    assert!(plan.recursive);
    assert_eq!(plan.targets, strings(&["a", "b"]));
}

#[test]
fn cd_without_argument_goes_home() {
    assert_eq!(cd_target(&strings(&[])), CdTarget::Home);
}

#[test]
fn cd_takes_its_first_argument() {
    assert_eq!(
        cd_target(&strings(&["nonexistent-dir-xyz"])),
        CdTarget::Path("nonexistent-dir-xyz".to_string())
    );
    assert_eq!(
        cd_target(&strings(&["a", "b"])),
        CdTarget::Path("a".to_string())
    );
}

#[test]
fn touch_and_rmdir_need_operands() {
    assert!(!has_operands(&strings(&[])));
    assert!(has_operands(&strings(&["a.txt"])));
}
