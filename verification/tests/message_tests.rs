use nexish::messages::cd_failed_message;
use nexish::messages::ls_failed_message;
use nexish::messages::mkdir_failed_message;
use nexish::messages::not_found_message;
use nexish::messages::parse_error_message;
use nexish::messages::pwd_failed_message;
use nexish::messages::rmdir_failed_message;
use nexish::messages::rmdir_missing_operand_message;
use nexish::messages::touch_failed_message;
use nexish::messages::touch_missing_operand_message;

#[test]
fn command_not_found_text_is_exact() {
    assert_eq!(
        not_found_message("nosuchprog123"),
        "nexish: command not found: nosuchprog123"
    );
}

#[test]
fn parse_error_text() {
    assert_eq!(parse_error_message(), "nexish: missing closing quote");
}

#[test]
fn missing_operand_texts() {
    assert_eq!(touch_missing_operand_message(), "touch: missing file operand");
    assert_eq!(rmdir_missing_operand_message(), "rmdir: missing operand");
}

#[test]
fn per_target_failure_texts() {
    assert_eq!(
        touch_failed_message("a.txt", "File exists"),
        "touch: file creating failed 'a.txt': File exists"
    );
    assert_eq!(
        rmdir_failed_message("a", "Directory not empty"),
        "rmdir: failed to remove 'a': Directory not empty"
    );
    assert_eq!(
        mkdir_failed_message("a", "File exists"),
        "mkdir: cannot create directory 'a': File exists"
    );
}

#[test]
fn query_failure_texts() {
    assert_eq!(
        pwd_failed_message("No such file or directory"),
        "pwd: error retrieving current directory: No such file or directory"
    );
    assert_eq!(
        ls_failed_message("Permission denied"),
        "ls: Error reading directory: Permission denied"
    );
    assert_eq!(
        cd_failed_message("No such file or directory"),
        "cd: No such file or directory"
    );
}
