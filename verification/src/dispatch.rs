//! The command dispatcher: a stage's program name is held against the fixed
//! set of builtin names, and the stage is routed either to an in-process
//! builtin executor or to the external spawn path.

use vstd::prelude::*;

use crate::text::str_eq;

verus! {

/// The builtins the shell runs in-process instead of spawning a program.
#[derive(Clone, Copy, Debug, PartialEq, Eq, Structural)]
pub enum Builtin {
    Whoami,
    Ls,
    Touch,
    Rmdir,
    Pwd,
    Cd,
    Mkdir,
    Exit,
}

/// The builtin a program name denotes, if any. The name must match whole:
/// anything else is an external program.
pub open spec fn builtin_of(name: Seq<char>) -> Option<Builtin> {
    if name == "whoami"@ {
        Some(Builtin::Whoami)
    } else if name == "ls"@ {
        Some(Builtin::Ls)
    } else if name == "touch"@ {
        Some(Builtin::Touch)
    } else if name == "rmdir"@ {
        Some(Builtin::Rmdir)
    } else if name == "pwd"@ {
        Some(Builtin::Pwd)
    } else if name == "cd"@ {
        Some(Builtin::Cd)
    } else if name == "mkdir"@ {
        Some(Builtin::Mkdir)
    } else if name == "exit"@ {
        Some(Builtin::Exit)
    } else {
        None
    }
}

/// Decides whether `program` names a builtin, and which one.
pub fn classify(program: &str) -> (r: Option<Builtin>)
    ensures
        r == builtin_of(program@),
{
    if str_eq(program, "whoami") {
        Some(Builtin::Whoami)
    } else if str_eq(program, "ls") {
        Some(Builtin::Ls)
    } else if str_eq(program, "touch") {
        Some(Builtin::Touch)
    } else if str_eq(program, "rmdir") {
        Some(Builtin::Rmdir)
    } else if str_eq(program, "pwd") {
        Some(Builtin::Pwd)
    } else if str_eq(program, "cd") {
        Some(Builtin::Cd)
    } else if str_eq(program, "mkdir") {
        Some(Builtin::Mkdir)
    } else if str_eq(program, "exit") {
        Some(Builtin::Exit)
    } else {
        None
    }
}

} // verus!
