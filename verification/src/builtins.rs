//! Invocation contracts of the builtin executors: how each builtin reads its
//! argument list. The filesystem and identity work itself happens outside
//! the verified core; these functions pin down exactly what is asked of it.

use vstd::prelude::*;

use crate::text::str_eq;

verus! {

/// The options `ls` accepts: `-a` shows hidden entries, `-l` the long
/// format, `-la` and `-al` both at once; any other argument names the
/// directory to list (the last one named wins), and the default is the
/// current directory.
#[derive(Debug, Clone, PartialEq, Eq)]
pub struct LsOptions {
    pub all: bool,
    pub long: bool,
    pub path: String,
}

/// The mathematical value of `LsOptions`.
pub ghost struct LsOptionsView {
    pub all: bool,
    pub long: bool,
    pub path: Seq<char>,
}

impl View for LsOptions {
    type V = LsOptionsView;

    open spec fn view(&self) -> LsOptionsView {
        LsOptionsView { all: self.all, long: self.long, path: self.path@ }
    }
}

/// One `ls` argument folded into the options read so far.
pub open spec fn ls_step(acc: LsOptionsView, arg: Seq<char>) -> LsOptionsView {
    if arg == "-a"@ {
        LsOptionsView { all: true, ..acc }
    } else if arg == "-l"@ {
        LsOptionsView { long: true, ..acc }
    } else if arg == "-la"@ || arg == "-al"@ {
        LsOptionsView { all: true, long: true, ..acc }
    } else {
        LsOptionsView { path: arg, ..acc }
    }
}

/// The `ls` arguments folded left to right into an accumulator.
pub open spec fn ls_fold(args: Seq<Seq<char>>, acc: LsOptionsView) -> LsOptionsView
    decreases args.len(),
{
    if args.len() == 0 {
        acc
    } else {
        ls_fold(args.drop_first(), ls_step(acc, args[0]))
    }
}

/// The options a given `ls` argument list denotes.
pub open spec fn ls_options_spec(args: Seq<Seq<char>>) -> LsOptionsView {
    ls_fold(args, LsOptionsView { all: false, long: false, path: "."@ })
}

/// Reads an `ls` argument list: flags accumulate, the last non-flag argument
/// names the directory, and the default directory is the current one.
pub fn parse_ls_args(args: &Vec<String>) -> (r: LsOptions)
    ensures
        r@ == ls_options_spec(args.deep_view()),
{
    let ghost arg_views = args.deep_view();
    let mut options = LsOptions { all: false, long: false, path: ".".to_owned() };
    let n: usize = args.len();
    let mut k: usize = 0;
    proof {
        assert(arg_views.subrange(0, arg_views.len() as int) =~= arg_views);
    }
    while k < n
        invariant
            0 <= k <= n,
            n == arg_views.len(),
            n == args@.len(),
            arg_views == args.deep_view(),
            ls_options_spec(arg_views) == ls_fold(
                arg_views.subrange(k as int, n as int),
                options@,
            ),
        decreases n - k,
    {
        proof {
            let tail = arg_views.subrange(k as int, n as int);
            assert(tail[0] == arg_views[k as int]);
            assert(tail.drop_first() =~= arg_views.subrange(k as int + 1, n as int));
            assert(args@[k as int]@ == arg_views[k as int]);
        }
        let arg: &String = &args[k];
        if str_eq(arg.as_str(), "-a") {
            options.all = true;
        } else if str_eq(arg.as_str(), "-l") {
            options.long = true;
        } else if str_eq(arg.as_str(), "-la") || str_eq(arg.as_str(), "-al") {
            options.all = true;
            options.long = true;
        } else {
            options.path = arg.clone();
        }
        k = k + 1;
    }
    proof {
        assert(arg_views.subrange(n as int, n as int) =~= Seq::<Seq<char>>::empty());
    }
    options
}

/// Whether an argument is the `-p` flag of `mkdir`.
pub open spec fn is_parents_flag(arg: Seq<char>) -> bool {
    arg == "-p"@
}

/// The plan for one `mkdir` invocation: whether parent directories are
/// created too (a `-p` anywhere among the arguments, enabling it for all
/// targets), and the directories to create, in order.
#[derive(Debug, Clone, PartialEq, Eq)]
pub struct MkdirPlan {
    pub recursive: bool,
    pub targets: Vec<String>,
}

/// The targets of a `mkdir` invocation: every argument that is not `-p`.
pub open spec fn mkdir_targets_spec(args: Seq<Seq<char>>) -> Seq<Seq<char>> {
    args.filter(|arg: Seq<char>| !is_parents_flag(arg))
}

/// One more argument extends the target list exactly when it is not `-p`.
proof fn lemma_mkdir_targets_push(args: Seq<Seq<char>>, arg: Seq<char>)
    ensures
        mkdir_targets_spec(args.push(arg)) == if !is_parents_flag(arg) {
            mkdir_targets_spec(args).push(arg)
        } else {
            mkdir_targets_spec(args)
        },
{
    reveal(Seq::filter);
    assert(args.push(arg).drop_last() =~= args);
    assert(args.push(arg).last() == arg);
}

/// Reads a `mkdir` argument list: `-p` in any position enables recursive
/// creation for all targets; everything else is a target, kept in order.
pub fn parse_mkdir_args(args: &Vec<String>) -> (r: MkdirPlan)
    ensures
        r.recursive == (exists|i: int|
            0 <= i < args.deep_view().len() && is_parents_flag(args.deep_view()[i])),
        r.targets.deep_view() == mkdir_targets_spec(args.deep_view()),
{
    let ghost arg_views = args.deep_view();
    let mut recursive = false;
    let mut targets: Vec<String> = Vec::new();
    let ghost mut kept: Seq<Seq<char>> = Seq::empty();
    let n: usize = args.len();
    let mut k: usize = 0;
    proof {
        assert(arg_views.subrange(0, 0) =~= Seq::<Seq<char>>::empty());
        assert(kept =~= mkdir_targets_spec(arg_views.subrange(0, 0)));
    }
    while k < n
        invariant
            0 <= k <= n,
            n == arg_views.len(),
            n == args@.len(),
            arg_views == args.deep_view(),
            recursive == (exists|i: int|
                0 <= i < k && is_parents_flag(arg_views[i])),
            kept == mkdir_targets_spec(arg_views.subrange(0, k as int)),
            targets@.len() == kept.len(),
            forall|j: int| 0 <= j < kept.len() ==> targets@[j]@ == kept[j],
        decreases n - k,
    {
        proof {
            assert(args@[k as int]@ == arg_views[k as int]);
        }
        let arg: &String = &args[k];
        if str_eq(arg.as_str(), "-p") {
            recursive = true;
        } else {
            targets.push(arg.clone());
            proof {
                kept = kept.push(arg_views[k as int]);
            }
        }
        proof {
            let prefix = arg_views.subrange(0, k as int);
            assert(arg_views.subrange(0, k as int + 1) =~= prefix.push(arg_views[k as int]));
            lemma_mkdir_targets_push(prefix, arg_views[k as int]);
        }
        k = k + 1;
    }
    proof {
        assert(arg_views.subrange(0, n as int) =~= arg_views);
        assert(targets.deep_view() =~= kept);
    }
    MkdirPlan { recursive, targets }
}

/// Where `cd` goes: the directory named by its first argument, or the
/// invoking user's home directory when no argument is given.
#[derive(Debug, Clone, PartialEq, Eq)]
pub enum CdTarget {
    Home,
    Path(String),
}

/// Decides the target of one `cd` invocation from its arguments alone.
/// Resolving the home directory, and changing directory at all, is outside
/// work; on failure the working directory stays as it was.
pub fn cd_target(args: &Vec<String>) -> (t: CdTarget)
    ensures
        match t {
            CdTarget::Home => args.deep_view().len() == 0,
            CdTarget::Path(p) => args.deep_view().len() > 0 && p@ == args.deep_view()[0],
        },
{
    if args.len() == 0 {
        CdTarget::Home
    } else {
        proof {
            assert(args@[0]@ == args.deep_view()[0]);
        }
        CdTarget::Path(args[0].clone())
    }
}

/// Whether a builtin that needs file operands (`touch`, `rmdir`) was given
/// any: with no arguments it reports its missing-operand error instead.
pub fn has_operands(args: &Vec<String>) -> (r: bool)
    ensures
        r == (args@.len() > 0),
{
    args.len() > 0
}

} // verus!
