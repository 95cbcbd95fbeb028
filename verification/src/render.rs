//! Rendering of `ls` output lines: the coarse human-relative modification
//! time, the right-aligned byte size, and the assembled short and long entry
//! texts. The permission string and the owner and group names are resolved
//! outside the verified core and arrive here as plain text.

use vstd::prelude::*;
use vstd::string::StrSliceExecFns;
use vstd::string::StringExecFns;

use crate::text::dec_digits;
use crate::text::u64_to_string;

verus! {

/// The coarse age of an entry, from the seconds since it was modified:
/// `just now` under a minute, whole minutes under an hour, whole hours under
/// a day, whole days beyond (each with a trailing space, as printed).
pub open spec fn age_text(secs: nat) -> Seq<char> {
    if secs < 60 {
        "just now "@
    } else if secs < 3600 {
        dec_digits(secs / 60) + " min ago "@
    } else if secs < 86400 {
        dec_digits(secs / 3600) + " hrs ago "@
    } else {
        dec_digits(secs / 86400) + " days ago "@
    }
}

/// Renders the age of an entry modified `secs` seconds ago.
pub fn format_age(secs: u64) -> (r: String)
    ensures
        r@ == age_text(secs as nat),
{
    if secs < 60 {
        "just now ".to_owned()
    } else if secs < 3600 {
        let mut r = u64_to_string(secs / 60);
        r.append(" min ago ");
        r
    } else if secs < 86400 {
        let mut r = u64_to_string(secs / 3600);
        r.append(" hrs ago ");
        r
    } else {
        let mut r = u64_to_string(secs / 86400);
        r.append(" days ago ");
        r
    }
}

/// A run of spaces.
pub open spec fn space_run(n: int) -> Seq<char> {
    Seq::new(if n >= 0 {
        n as nat
    } else {
        0
    }, |i: int| ' ')
}

/// A count rendered in decimal and padded with spaces on the left to at
/// least five characters, as the size column of the long format aligns it.
pub open spec fn padded_count(n: nat) -> Seq<char> {
    if dec_digits(n).len() >= 5 {
        dec_digits(n)
    } else {
        space_run(5 - dec_digits(n).len()) + dec_digits(n)
    }
}

/// Renders `n` right-aligned in a five-character column.
pub fn pad_count(n: u64) -> (r: String)
    ensures
        r@ == padded_count(n as nat),
{
    let digits = u64_to_string(n);
    let len: usize = digits.as_str().unicode_len();
    if len >= 5 {
        return digits;
    }
    let mut r = String::new();
    let mut made: usize = 0;
    proof {
        reveal_strlit(" ");
        assert(r@ =~= space_run(0));
    }
    while made < 5 - len
        invariant
            0 <= made <= 5 - len,
            len == dec_digits(n as nat).len(),
            len < 5,
            r@ == space_run(made as int),
        decreases 5 - len - made,
    {
        r.append(" ");
        made = made + 1;
        proof {
            reveal_strlit(" ");
            assert(r@ =~= space_run(made as int));
        }
    }
    r.append(digits.as_str());
    r
}

/// One entry of the short listing: the name and two spaces, printed in a
/// row on one line.
pub open spec fn short_entry_text(name: Seq<char>) -> Seq<char> {
    name + "  "@
}

/// Renders one short-format entry.
pub fn render_short_entry(name: &str) -> (r: String)
    ensures
        r@ == short_entry_text(name@),
{
    let mut r = name.to_owned();
    r.append("  ");
    r
}

/// One line of the long listing: permission bits, hard-link count, owner,
/// group, right-aligned byte size, coarse age, and the entry's name.
pub open spec fn long_entry_text(
    perms: Seq<char>,
    links: nat,
    owner: Seq<char>,
    group: Seq<char>,
    size: nat,
    age_secs: nat,
    name: Seq<char>,
) -> Seq<char> {
    perms + " "@ + dec_digits(links) + " "@ + owner + " "@ + group + " "@ + padded_count(size)
        + " "@ + age_text(age_secs) + name + "  "@
}

/// Renders one long-format line for an entry modified `age_secs` seconds
/// ago. The permission text and the owner and group names come from the
/// caller, which resolved them against the filesystem.
pub fn render_long_entry(
    perms: &str,
    links: u64,
    owner: &str,
    group: &str,
    size: u64,
    age_secs: u64,
    name: &str,
) -> (r: String)
    ensures
        r@ == long_entry_text(
            perms@,
            links as nat,
            owner@,
            group@,
            size as nat,
            age_secs as nat,
            name@,
        ),
{
    let mut r = perms.to_owned();
    r.append(" ");
    let links_text = u64_to_string(links);
    r.append(links_text.as_str());
    r.append(" ");
    r.append(owner);
    r.append(" ");
    r.append(group);
    r.append(" ");
    let size_text = pad_count(size);
    r.append(size_text.as_str());
    r.append(" ");
    let age = format_age(age_secs);
    r.append(age.as_str());
    r.append(name);
    r.append("  ");
    proof {
        assert(r@ =~= long_entry_text(
            perms@,
            links as nat,
            owner@,
            group@,
            size as nat,
            age_secs as nat,
            name@,
        ));
    }
    r
}

} // verus!
