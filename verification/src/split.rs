//! The pipeline splitter: an input line is cut on the pipe character into
//! stage texts, each trimmed of surrounding whitespace. Quoting is not
//! considered at this layer; it is resolved later, per stage, by the
//! tokenizer, so a pipe character inside quotes splits the line as well.

use vstd::prelude::*;
use vstd::string::StrSliceExecFns;

use crate::text::is_space_char;
use crate::text::lemma_trim_all_space;
use crate::text::trim_spec;
use crate::text::trim_str;

verus! {

/// The segments of `s[i..]` split on the pipe character, where the current
/// segment began at `start`. Mirrors `str::split('|')`: adjacent pipes give
/// an empty segment, and a line without pipes is one segment.
pub open spec fn pipe_segments_from(s: Seq<char>, i: int, start: int) -> Seq<Seq<char>>
    recommends
        0 <= start <= i <= s.len(),
    decreases s.len() - i,
{
    if i >= s.len() {
        seq![s.subrange(start, s.len() as int)]
    } else if s[i] == '|' {
        seq![s.subrange(start, i)] + pipe_segments_from(s, i + 1, i + 1)
    } else {
        pipe_segments_from(s, i + 1, start)
    }
}

/// The segments of the whole line, split on the pipe character.
pub open spec fn pipe_segments(s: Seq<char>) -> Seq<Seq<char>> {
    pipe_segments_from(s, 0, 0)
}

/// What the pipeline splitter yields: nothing for a line that trims to
/// nothing, otherwise every pipe-separated segment, trimmed.
pub open spec fn split_line_spec(s: Seq<char>) -> Seq<Seq<char>> {
    if trim_spec(s).len() == 0 {
        Seq::empty()
    } else {
        pipe_segments(s).map_values(|seg: Seq<char>| trim_spec(seg))
    }
}

/// Splits one input line into trimmed stage texts: an empty sequence when
/// the line holds only whitespace, otherwise one entry per pipe-separated
/// segment (empty segments included; the tokenizer later skips them).
pub fn split_pipeline(line: &str) -> (r: Vec<String>)
    ensures
        r.deep_view() == split_line_spec(line@),
{
    let trimmed = trim_str(line);
    if trimmed.as_str().is_empty() {
        let r: Vec<String> = Vec::new();
        proof {
            assert(r.deep_view() =~= split_line_spec(line@));
        }
        return r;
    }
    let n: usize = line.unicode_len();
    let mut out: Vec<String> = Vec::new();
    let mut start: usize = 0;
    let mut i: usize = 0;
    let ghost mut raw: Seq<Seq<char>> = Seq::empty();
    proof {
        assert(raw + pipe_segments_from(line@, 0, 0) =~= pipe_segments(line@));
    }
    while i < n
        invariant
            0 <= start <= i <= n,
            n == line@.len(),
            pipe_segments(line@) == raw + pipe_segments_from(line@, i as int, start as int),
            out@.len() == raw.len(),
            forall|k: int| 0 <= k < raw.len() ==> out@[k]@ == trim_spec(raw[k]),
        decreases n - i,
    {
        if line.get_char(i) == '|' {
            let piece = line.substring_char(start, i);
            out.push(trim_str(piece));
            proof {
                let seg = line@.subrange(start as int, i as int);
                assert(pipe_segments_from(line@, i as int, start as int) =~= seq![seg]
                    + pipe_segments_from(line@, i as int + 1, i as int + 1));
                assert(raw + pipe_segments_from(line@, i as int, start as int) =~= raw.push(seg)
                    + pipe_segments_from(line@, i as int + 1, i as int + 1));
                raw = raw.push(seg);
            }
            start = i + 1;
        }
        i = i + 1;
    }
    let piece = line.substring_char(start, n);
    out.push(trim_str(piece));
    proof {
        let seg = line@.subrange(start as int, n as int);
        assert(pipe_segments_from(line@, n as int, start as int) =~= seq![seg]);
        raw = raw.push(seg);
        assert(pipe_segments(line@) =~= raw);
        assert(trim_spec(line@).len() > 0);
        assert(out.deep_view() =~= split_line_spec(line@));
    }
    out
}

/// A line of nothing but whitespace yields no stages at all, so the
/// pipeline runner has nothing to do and nothing to report.
pub proof fn lemma_whitespace_only_yields_no_stages(s: Seq<char>)
    requires
        forall|k: int| 0 <= k < s.len() ==> is_space_char(s[k]),
    ensures
        split_line_spec(s) == Seq::<Seq<char>>::empty(),
{
    lemma_trim_all_space(s);
}

} // verus!
