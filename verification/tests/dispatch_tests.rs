use nexish::dispatch::classify;
use nexish::dispatch::Builtin;

#[test]
fn every_builtin_name_is_recognized() {
    assert_eq!(classify("whoami"), Some(Builtin::Whoami));
    assert_eq!(classify("ls"), Some(Builtin::Ls));
    assert_eq!(classify("touch"), Some(Builtin::Touch));
    assert_eq!(classify("rmdir"), Some(Builtin::Rmdir));
    assert_eq!(classify("pwd"), Some(Builtin::Pwd));
    assert_eq!(classify("cd"), Some(Builtin::Cd));
    assert_eq!(classify("mkdir"), Some(Builtin::Mkdir));
    assert_eq!(classify("exit"), Some(Builtin::Exit));
}

#[test]
fn other_programs_are_external() {
    assert_eq!(classify("echo"), None);
    assert_eq!(classify("nosuchprog123"), None);
    assert_eq!(classify("grep"), None);
    assert_eq!(classify(""), None);
}

#[test]
fn names_must_match_whole() {
    assert_eq!(classify("lsx"), None);
    assert_eq!(classify("l"), None);
    assert_eq!(classify(" ls"), None);
    assert_eq!(classify("LS"), None);
}
