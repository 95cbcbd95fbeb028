//! The error texts the shell reports. Every reported error carries the
//! failing component's name as a prefix; the texts here pin the exact
//! wording, character for character.

use vstd::prelude::*;
use vstd::string::StringExecFns;

verus! {

/// The report for a program that could not be spawned.
pub fn not_found_message(program: &str) -> (m: String)
    ensures
        m@ == "nexish: command not found: "@ + program@,
{
    let mut m = "nexish: command not found: ".to_owned();
    m.append(program);
    m
}

/// The report for an input line whose quoting never closes.
pub fn parse_error_message() -> (m: String)
    ensures
        m@ == "nexish: missing closing quote"@,
{
    "nexish: missing closing quote".to_owned()
}

/// The report for `touch` called without file operands.
pub fn touch_missing_operand_message() -> (m: String)
    ensures
        m@ == "touch: missing file operand"@,
{
    "touch: missing file operand".to_owned()
}

/// The report for `rmdir` called without operands.
pub fn rmdir_missing_operand_message() -> (m: String)
    ensures
        m@ == "rmdir: missing operand"@,
{
    "rmdir: missing operand".to_owned()
}

/// The report for one file `touch` could not create, with the underlying
/// failure's text.
pub fn touch_failed_message(file: &str, detail: &str) -> (m: String)
    ensures
        m@ == "touch: file creating failed '"@ + file@ + "': "@ + detail@,
{
    let mut m = "touch: file creating failed '".to_owned();
    m.append(file);
    m.append("': ");
    m.append(detail);
    m
}

/// The report for one directory `rmdir` could not remove.
pub fn rmdir_failed_message(dir: &str, detail: &str) -> (m: String)
    ensures
        m@ == "rmdir: failed to remove '"@ + dir@ + "': "@ + detail@,
{
    let mut m = "rmdir: failed to remove '".to_owned();
    m.append(dir);
    m.append("': ");
    m.append(detail);
    m
}

/// The report for one directory `mkdir` could not create.
pub fn mkdir_failed_message(dir: &str, detail: &str) -> (m: String)
    ensures
        m@ == "mkdir: cannot create directory '"@ + dir@ + "': "@ + detail@,
{
    let mut m = "mkdir: cannot create directory '".to_owned();
    m.append(dir);
    m.append("': ");
    m.append(detail);
    m
}

/// The report for a working directory that could not be queried.
pub fn pwd_failed_message(detail: &str) -> (m: String)
    ensures
        m@ == "pwd: error retrieving current directory: "@ + detail@,
{
    let mut m = "pwd: error retrieving current directory: ".to_owned();
    m.append(detail);
    m
}

/// The report for a directory `ls` could not read.
pub fn ls_failed_message(detail: &str) -> (m: String)
    ensures
        m@ == "ls: Error reading directory: "@ + detail@,
{
    let mut m = "ls: Error reading directory: ".to_owned();
    m.append(detail);
    m
}

/// The report for a directory `cd` could not enter; the working directory
/// stays as it was.
pub fn cd_failed_message(detail: &str) -> (m: String)
    ensures
        m@ == "cd: "@ + detail@,
{
    let mut m = "cd: ".to_owned();
    m.append(detail);
    m
}

} // verus!
