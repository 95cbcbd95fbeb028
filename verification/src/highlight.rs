//! Classification of an input line for syntax highlighting: the line is
//! split on whitespace, the first word is held against the known command
//! list, and every further word is classed by its shape. The styling (the
//! colors themselves) is applied outside the verified core; these functions
//! fix which piece of text gets which class.

use vstd::prelude::*;
use vstd::string::StrSliceExecFns;

use crate::text::is_space;
use crate::text::is_space_char;
use crate::text::str_eq;

verus! {

/// The words of `s[i..]` separated by whitespace, where `cur` is the word
/// read so far: maximal runs of non-whitespace characters, in order, with
/// no empty words.
pub open spec fn words_from(s: Seq<char>, i: int, cur: Seq<char>) -> Seq<Seq<char>>
    recommends
        0 <= i <= s.len(),
    decreases s.len() - i,
{
    if i >= s.len() {
        if cur.len() > 0 {
            seq![cur]
        } else {
            Seq::empty()
        }
    } else if is_space_char(s[i]) {
        (if cur.len() > 0 {
            seq![cur]
        } else {
            Seq::empty()
        }) + words_from(s, i + 1, Seq::empty())
    } else {
        words_from(s, i + 1, cur.push(s[i]))
    }
}

/// The whitespace-separated words of a whole line, as `str::split_whitespace`
/// yields them.
pub open spec fn whitespace_words(s: Seq<char>) -> Seq<Seq<char>> {
    words_from(s, 0, Seq::empty())
}

/// Splits a line into its whitespace-separated words.
pub fn split_whitespace_words(line: &str) -> (r: Vec<String>)
    ensures
        r.deep_view() == whitespace_words(line@),
{
    let n: usize = line.unicode_len();
    let mut out: Vec<String> = Vec::new();
    let ghost mut done: Seq<Seq<char>> = Seq::empty();
    let mut start: usize = 0;
    let mut i: usize = 0;
    proof {
        assert(line@.subrange(0, 0) =~= Seq::<char>::empty());
        assert(done + words_from(line@, 0, line@.subrange(0, 0)) =~= whitespace_words(line@));
    }
    while i < n
        invariant
            0 <= start <= i <= n,
            n == line@.len(),
            whitespace_words(line@) == done + words_from(
                line@,
                i as int,
                line@.subrange(start as int, i as int),
            ),
            out@.len() == done.len(),
            forall|j: int| 0 <= j < done.len() ==> out@[j]@ == done[j],
        decreases n - i,
    {
        let ghost cur = line@.subrange(start as int, i as int);
        if is_space(line.get_char(i)) {
            if start < i {
                let word = line.substring_char(start, i);
                out.push(word.to_owned());
                proof {
                    done = done.push(cur);
                }
            }
            proof {
                assert(words_from(line@, i as int, cur) =~= (if cur.len() > 0 {
                    seq![cur]
                } else {
                    Seq::<Seq<char>>::empty()
                }) + words_from(line@, i as int + 1, Seq::empty()));
                assert(line@.subrange(i as int + 1, i as int + 1) =~= Seq::<char>::empty());
            }
            start = i + 1;
        } else {
            proof {
                assert(cur.push(line@[i as int]) =~= line@.subrange(start as int, i as int + 1));
            }
        }
        i = i + 1;
    }
    if start < n {
        let word = line.substring_char(start, n);
        out.push(word.to_owned());
        proof {
            done = done.push(line@.subrange(start as int, n as int));
        }
    }
    proof {
        assert(out.deep_view() =~= done);
    }
    out
}

/// How one piece of the line is classed for styling.
#[derive(Clone, Copy, Debug, PartialEq, Eq, Structural)]
pub enum TokenKind {
    /// The first word, when it names a known command.
    Command,
    /// The first word, when it does not.
    Unknown,
    /// A later word opening with a dash.
    Flag,
    /// A later word holding a slash or opening with a dot.
    PathLike,
    /// Any other later word.
    Plain,
    /// The single space printed between two words.
    Separator,
}

/// The class of a word in argument position: flags open with a dash, paths
/// hold a slash or open with a dot, everything else is plain.
pub open spec fn argument_kind_spec(word: Seq<char>) -> TokenKind {
    if word.len() > 0 && word[0] == '-' {
        TokenKind::Flag
    } else if word.contains('/') || (word.len() > 0 && word[0] == '.') {
        TokenKind::PathLike
    } else {
        TokenKind::Plain
    }
}

/// Whether the first character of `s` is `c`.
fn first_char_is(s: &str, c: char) -> (r: bool)
    ensures
        r == (s@.len() > 0 && s@[0] == c),
{
    if s.unicode_len() == 0 {
        false
    } else {
        s.get_char(0) == c
    }
}

/// Whether `s` holds the character `c` anywhere.
fn contains_char(s: &str, c: char) -> (r: bool)
    ensures
        r == s@.contains(c),
{
    let n: usize = s.unicode_len();
    let mut i: usize = 0;
    while i < n
        invariant
            0 <= i <= n,
            n == s@.len(),
            forall|k: int| 0 <= k < i ==> s@[k] != c,
        decreases n - i,
    {
        if s.get_char(i) == c {
            return true;
        }
        i = i + 1;
    }
    false
}

/// Classes a word standing in argument position.
pub fn argument_kind(word: &str) -> (k: TokenKind)
    ensures
        k == argument_kind_spec(word@),
{
    if first_char_is(word, '-') {
        TokenKind::Flag
    } else if contains_char(word, '/') || first_char_is(word, '.') {
        TokenKind::PathLike
    } else {
        TokenKind::Plain
    }
}

/// One classed piece of the line.
#[derive(Debug, Clone, PartialEq, Eq)]
pub struct Segment {
    pub kind: TokenKind,
    pub text: String,
}

/// The mathematical value of a `Segment`.
pub ghost struct SegmentView {
    pub kind: TokenKind,
    pub text: Seq<char>,
}

impl View for Segment {
    type V = SegmentView;

    open spec fn view(&self) -> SegmentView {
        SegmentView { kind: self.kind, text: self.text@ }
    }
}

impl DeepView for Segment {
    type V = SegmentView;

    open spec fn deep_view(&self) -> SegmentView {
        self@
    }
}

/// The classed pieces for the words after the first: each word is preceded
/// by a single separator space and classed by its shape.
pub open spec fn argument_segments(words: Seq<Seq<char>>) -> Seq<SegmentView>
    decreases words.len(),
{
    if words.len() == 0 {
        Seq::empty()
    } else {
        seq![
            SegmentView { kind: TokenKind::Separator, text: " "@ },
            SegmentView { kind: argument_kind_spec(words[0]), text: words[0] },
        ] + argument_segments(words.drop_first())
    }
}

/// The class of the first word: a known command or not.
pub open spec fn head_kind_spec(commands: Seq<Seq<char>>, word: Seq<char>) -> TokenKind {
    if commands.contains(word) {
        TokenKind::Command
    } else {
        TokenKind::Unknown
    }
}

/// The classed pieces of a whole line: nothing for a blank line, otherwise
/// the first word classed against the command list, then each further word
/// with its separator.
pub open spec fn highlight_spec(commands: Seq<Seq<char>>, line: Seq<char>) -> Seq<SegmentView> {
    let words = whitespace_words(line);
    if words.len() == 0 {
        Seq::empty()
    } else {
        seq![SegmentView { kind: head_kind_spec(commands, words[0]), text: words[0] }]
            + argument_segments(words.drop_first())
    }
}

/// Classes the pieces of an input line against a fixed list of known
/// command names.
pub struct ShellHighlighter {
    commands: Vec<String>,
}

impl View for ShellHighlighter {
    type V = Seq<Seq<char>>;

    closed spec fn view(&self) -> Seq<Seq<char>> {
        self.commands.deep_view()
    }
}

impl ShellHighlighter {
    /// A highlighter that recognizes exactly the given command names.
    pub fn new(commands: Vec<String>) -> (r: Self)
        ensures
            r@ == commands.deep_view(),
    {
        Self { commands }
    }

    /// Whether `word` is one of the known command names.
    pub fn is_known_command(&self, word: &str) -> (r: bool)
        ensures
            r == self@.contains(word@),
    {
        let n: usize = self.commands.len();
        let mut i: usize = 0;
        while i < n
            invariant
                0 <= i <= n,
                n == self@.len(),
                n == self.commands@.len(),
                self@ == self.commands.deep_view(),
                forall|k: int| 0 <= k < i ==> self@[k] != word@,
            decreases n - i,
        {
            proof {
                assert(self.commands@[i as int]@ == self@[i as int]);
            }
            if str_eq(self.commands[i].as_str(), word) {
                return true;
            }
            i = i + 1;
        }
        false
    }

    /// Splits the line on whitespace and classes every piece: the first word
    /// by the command list, later words by their shape, with a separator
    /// space before each of them.
    pub fn highlight_segments(&self, line: &str) -> (segs: Vec<Segment>)
        ensures
            segs@.len() == highlight_spec(self@, line@).len(),
            forall|j: int|
                0 <= j < segs@.len() ==> segs@[j]@ == highlight_spec(self@, line@)[j],
    {
        let ghost expected = highlight_spec(self@, line@);
        let words = split_whitespace_words(line);
        let ghost word_views = words.deep_view();
        let mut segs: Vec<Segment> = Vec::new();
        if words.len() == 0 {
            return segs;
        }
        proof {
            assert(words@[0]@ == word_views[0]);
        }
        let head = &words[0];
        let head_kind = if self.is_known_command(head.as_str()) {
            TokenKind::Command
        } else {
            TokenKind::Unknown
        };
        segs.push(Segment { kind: head_kind, text: head.clone() });
        let n: usize = words.len();
        let mut k: usize = 1;
        proof {
            assert(word_views.drop_first() =~= word_views.subrange(1, n as int));
        }
        while k < n
            invariant
                1 <= k <= n,
                n == word_views.len(),
                n == words@.len(),
                word_views == words.deep_view(),
                expected == highlight_spec(self@, line@),
                expected =~= segs.deep_view() + argument_segments(
                    word_views.subrange(k as int, n as int),
                ),
            decreases n - k,
        {
            proof {
                let tail = word_views.subrange(k as int, n as int);
                assert(tail[0] == word_views[k as int]);
                assert(tail.drop_first() =~= word_views.subrange(k as int + 1, n as int));
                assert(words@[k as int]@ == word_views[k as int]);
            }
            let word = &words[k];
            segs.push(Segment { kind: TokenKind::Separator, text: " ".to_owned() });
            let kind = argument_kind(word.as_str());
            segs.push(Segment { kind, text: word.clone() });
            k = k + 1;
        }
        proof {
            assert(word_views.subrange(n as int, n as int) =~= Seq::<Seq<char>>::empty());
            assert(expected =~= segs.deep_view());
        }
        segs
    }
}

} // verus!
