//! The tokenizer: one pipe-delimited segment of the input line becomes a
//! `Stage`, a program name with its arguments, honoring shell-style quoting.
//! The quoting rules themselves come from the `shell_words` crate; their
//! outcome is named by `shell_split`, and everything after the call is
//! verified against that name.

use vstd::prelude::*;

use crate::split::lemma_whitespace_only_yields_no_stages;
use crate::split::split_line_spec;
use crate::split::split_pipeline;
use crate::text::is_space_char;

verus! {

/// What `shell_words::split` returns on the given characters: `Some` of the
/// token list after quote removal, or `None` when the input has an unmatched
/// quote. The result depends on the characters alone.
pub uninterp spec fn shell_split(s: Seq<char>) -> Option<Seq<Seq<char>>>;

/// Unterminated quoting in a stage. Fatal to the whole input line: nothing
/// of the line is executed.
#[derive(Clone, Copy, Debug, PartialEq, Eq, Structural)]
pub struct ParseError;

/// Relies on `shell_words::split` (a deterministic character-level state
/// machine) for shell-style word splitting; `None` stands for its
/// `ParseError`, returned exactly on an unmatched quote.
#[verifier::external_body]
fn split_words(s: &str) -> (r: Option<Vec<String>>)
    ensures
        match r {
            Some(tokens) => shell_split(s@) == Some(tokens.deep_view()),
            None => shell_split(s@) is None,
        },
{
    match shell_words::split(s) {
        Ok(tokens) => Some(tokens),
        Err(_) => None,
    }
}

/// One stage of a pipeline: the program to run and its arguments, in order.
#[derive(Debug, Clone, PartialEq, Eq)]
pub struct Stage {
    pub program: String,
    pub arguments: Vec<String>,
}

/// The mathematical value of a `Stage`.
pub ghost struct StageView {
    pub program: Seq<char>,
    pub arguments: Seq<Seq<char>>,
}

impl View for Stage {
    type V = StageView;

    open spec fn view(&self) -> StageView {
        StageView { program: self.program@, arguments: self.arguments.deep_view() }
    }
}

/// The stage described by a non-empty token list: the first token names the
/// program, the rest are its arguments.
pub open spec fn stage_of_tokens(tokens: Seq<Seq<char>>) -> StageView
    recommends
        tokens.len() > 0,
{
    StageView { program: tokens[0], arguments: tokens.drop_first() }
}

/// Tokenizes one stage text. `Err` on unterminated quoting; `Ok(None)` when
/// the text holds no token at all (a whitespace-only stage, skipped without
/// error); otherwise the stage built from the tokens.
pub fn tokenize(segment: &str) -> (r: Result<Option<Stage>, ParseError>)
    ensures
        match shell_split(segment@) {
            None => r is Err,
            Some(tokens) => {
                if tokens.len() == 0 {
                    r matches Ok(st) && st is None
                } else {
                    r matches Ok(st) && st matches Some(stage) && stage@ == stage_of_tokens(tokens)
                }
            },
        },
{
    match split_words(segment) {
        None => Err(ParseError),
        Some(mut tokens) => {
            if tokens.len() == 0 {
                Ok(None)
            } else {
                let ghost token_views = tokens.deep_view();
                let program = tokens.remove(0);
                let stage = Stage { program, arguments: tokens };
                proof {
                    assert(stage@.arguments =~= token_views.drop_first());
                }
                Ok(Some(stage))
            }
        },
    }
}

/// The stages of a segment list: each segment is tokenized in turn; a
/// quoting error anywhere poisons the whole list, and segments without
/// tokens are dropped.
pub open spec fn stages_of_segments(segments: Seq<Seq<char>>) -> Option<Seq<StageView>>
    decreases segments.len(),
{
    if segments.len() == 0 {
        Some(Seq::empty())
    } else {
        match shell_split(segments[0]) {
            None => None,
            Some(tokens) => match stages_of_segments(segments.drop_first()) {
                None => None,
                Some(rest) => if tokens.len() == 0 {
                    Some(rest)
                } else {
                    Some(seq![stage_of_tokens(tokens)] + rest)
                },
            },
        }
    }
}

/// The stages of a whole input line: split on the pipe character, then
/// tokenized stage by stage.
pub open spec fn line_stages_spec(line: Seq<char>) -> Option<Seq<StageView>> {
    stages_of_segments(split_line_spec(line))
}

/// Appending one more parsed stage commutes with parsing segment by segment.
proof fn lemma_stages_of_segments_step(segments: Seq<Seq<char>>, k: int)
    requires
        0 <= k < segments.len(),
    ensures
        stages_of_segments(segments.subrange(k, segments.len() as int)) == match shell_split(
            segments[k],
        ) {
            None => None::<Seq<StageView>>,
            Some(tokens) => match stages_of_segments(segments.subrange(k + 1, segments.len() as int)) {
                None => None,
                Some(rest) => if tokens.len() == 0 {
                    Some(rest)
                } else {
                    Some(seq![stage_of_tokens(tokens)] + rest)
                },
            },
        },
{
    let tail = segments.subrange(k, segments.len() as int);
    assert(tail[0] == segments[k]);
    assert(tail.drop_first() =~= segments.subrange(k + 1, segments.len() as int));
}

/// Parses a whole input line into its pipeline stages: the line is split on
/// the pipe character, each segment is tokenized, whitespace-only segments
/// are skipped, and an unterminated quote anywhere makes the whole line
/// fail, so that nothing of it executes.
pub fn parse_line(line: &str) -> (r: Result<Vec<Stage>, ParseError>)
    ensures
        match line_stages_spec(line@) {
            None => r is Err,
            Some(stage_views) => r matches Ok(stages) && stages@.len() == stage_views.len()
                && (forall|k: int| 0 <= k < stage_views.len() ==> stages@[k]@ == stage_views[k]),
        },
{
    let segments = split_pipeline(line);
    let ghost seg_views = segments.deep_view();
    let mut stages: Vec<Stage> = Vec::new();
    let mut k: usize = 0;
    let n: usize = segments.len();
    proof {
        assert(seg_views.subrange(0, seg_views.len() as int) =~= seg_views);
    }
    while k < n
        invariant
            0 <= k <= n,
            n == seg_views.len(),
            n == segments@.len(),
            seg_views == segments.deep_view(),
            split_line_spec(line@) == seg_views,
            match stages_of_segments(seg_views.subrange(k as int, n as int)) {
                None => line_stages_spec(line@) is None,
                Some(rest) => line_stages_spec(line@) matches Some(all) && all.len() == stages@.len()
                    + rest.len() && (forall|j: int|
                    0 <= j < stages@.len() ==> all[j] == stages@[j]@) && (forall|j: int|
                    0 <= j < rest.len() ==> all[stages@.len() + j] == rest[j]),
            },
        decreases n - k,
    {
        proof {
            lemma_stages_of_segments_step(seg_views, k as int);
            assert(segments@[k as int]@ == seg_views[k as int]);
        }
        let ghost here = stages_of_segments(seg_views.subrange(k as int, n as int));
        let ghost next = stages_of_segments(seg_views.subrange(k as int + 1, n as int));
        let segment: &String = &segments[k];
        match tokenize(segment.as_str()) {
            Err(e) => {
                proof {
                    assert(here is None);
                }
                return Err(e);
            },
            Ok(None) => {
                proof {
                    assert(here == next);
                }
            },
            Ok(Some(stage)) => {
                let ghost tokens = shell_split(seg_views[k as int])->Some_0;
                proof {
                    assert(stage@ == stage_of_tokens(tokens));
                    if next is Some {
                        assert(here matches Some(r) && r == seq![stage_of_tokens(tokens)]
                            + next->Some_0);
                    } else {
                        assert(here is None);
                    }
                }
                stages.push(stage);
                proof {
                    if here is Some {
                        let r = here->Some_0;
                        let rest2 = next->Some_0;
                        assert(r[0] == stage@);
                        assert(forall|j: int| 0 <= j < rest2.len() ==> r[j + 1] == rest2[j]);
                        match line_stages_spec(line@) {
                            None => {},
                            Some(all) => {
                                assert(all[stages@.len() - 1] == stage@);
                            },
                        }
                    }
                }
            },
        }
        k = k + 1;
    }
    proof {
        assert(seg_views.subrange(n as int, n as int) =~= Seq::<Seq<char>>::empty());
        match line_stages_spec(line@) {
            None => {
                assert(false);
            },
            Some(all) => {
                assert(all.len() == stages@.len());
            },
        }
    }
    Ok(stages)
}

/// A line of nothing but whitespace parses to no stages at all: nothing is
/// executed and nothing is reported.
pub proof fn lemma_whitespace_only_line_is_empty(s: Seq<char>)
    requires
        forall|k: int| 0 <= k < s.len() ==> is_space_char(s[k]),
    ensures
        line_stages_spec(s) == Some(Seq::<StageView>::empty()),
{
    lemma_whitespace_only_yields_no_stages(s);
}

} // verus!
