//! Fitting a title and an artist into a bounded display width.

use vstd::prelude::*;
use vstd::string::*;
use vstd::utf8::*;

verus! {

/// Per-field character budget of the media-player line.
pub const FIELD_BUDGET: usize = 30;

/// How far past its budget a field may run before it is cut.
pub const SHIFT_TOLERANCE: usize = 6;

/// Length in bytes of the UTF-8 encoding of `s`, as `str::len` reports it.
pub open spec fn byte_len(s: Seq<char>) -> nat {
    (encode_utf8(s).len() as usize) as nat
}

/// The first `n` characters of `s`, or all of `s` when it is shorter.
pub open spec fn take_chars(s: Seq<char>, n: nat) -> Seq<char> {
    if n < s.len() {
        s.subrange(0, n as int)
    } else {
        s
    }
}

/// `s` cut to `max_len` characters and marked with `..` when its byte
/// length exceeds `max_len`; otherwise `s` itself.
pub open spec fn shortened(s: Seq<char>, max_len: nat) -> Seq<char> {
    if byte_len(s) > max_len {
        take_chars(s, max_len) + ".."@
    } else {
        s
    }
}

/// The limit applied to a field: its own character count when that count is
/// within `budget + shift`, else `budget`. The limit counts characters while
/// `shortened` compares it with the byte length, so a field of multi-byte
/// characters is marked with `..` even within its budget.
pub open spec fn field_limit(s: Seq<char>, budget: nat, shift: nat) -> nat {
    if s.len() <= budget + shift {
        s.len()
    } else {
        budget
    }
}

/// A field as displayed under a budget and a tolerance.
pub open spec fn fitted(s: Seq<char>, budget: nat, shift: nat) -> Seq<char> {
    shortened(s, field_limit(s, budget, shift))
}

/// The separator between title and artist: none when the artist is empty.
pub open spec fn separator_of(artist: Seq<char>) -> Seq<char> {
    if artist.len() == 0 {
        Seq::empty()
    } else {
        " — "@
    }
}

/// The title's budget: the artist's share is added when there is no artist.
pub open spec fn title_budget(artist: Seq<char>, budget: nat) -> nat {
    if artist.len() == 0 {
        budget + budget
    } else {
        budget
    }
}

proof fn lemma_ascii_byte_len(s: Seq<char>)
    requires
        is_ascii_chars(s),
    ensures
        byte_len(s) <= s.len(),
{
    is_ascii_chars_encode_utf8(s);
    assert(encode_utf8(s).len() == s.len());
}

/// An ASCII field whose character count is within its budget plus the
/// tolerance, in particular one within the budget itself, is displayed
/// unchanged with no `..` mark; and fitting an ASCII field that was already
/// fitted changes nothing more, whenever the tolerance leaves room for the
/// mark.
pub proof fn lemma_fit_ascii_short_unchanged(s: Seq<char>, budget: nat, shift: nat)
    requires
        is_ascii_chars(s),
    ensures
        s.len() <= budget + shift ==> fitted(s, budget, shift) == s,
        shift >= 2 ==> fitted(fitted(s, budget, shift), budget, shift) == fitted(s, budget, shift),
{
    lemma_ascii_byte_len(s);
    let f = fitted(s, budget, shift);
    if shift >= 2 && f != s {
        assert(s.len() > budget + shift);
        assert(f == s.subrange(0, budget as int) + ".."@);
        reveal_strlit("..");
        assert(f.len() == budget + 2);
        assert forall|i: int| 0 <= i < f.len() implies '\0' <= #[trigger] f[i] <= '\u{7f}' by {
            if i < budget {
                assert(f[i] == s[i]);
            }
        }
        lemma_ascii_byte_len(f);
    }
}

/// Title, artist and separator ready for display.
pub struct LineLayout {
    pub title: String,
    pub artist: String,
    pub separator: String,
}

/// Cuts `line` to its first `max_len` characters followed by `..` when its
/// length in bytes is greater than `max_len`.
pub fn shorten(line: &str, max_len: usize) -> (r: String)
    ensures
        r@ == shortened(line@, max_len as nat),
{
    if line.len() > max_len {
        let n = line.unicode_len();
        let k = if max_len < n {
            max_len
        } else {
            n
        };
        let mut out = line.substring_char(0, k).to_owned();
        out.append("..");
        assert(line@.subrange(0, line@.len() as int) =~= line@);
        out
    } else {
        line.to_owned()
    }
}

/// Cuts one field under `budget`, leaving alone a field whose character
/// count is within `budget + shift`.
pub fn fit_field(line: &str, budget: usize, shift: usize) -> (r: String)
    ensures
        r@ == fitted(line@, budget as nat, shift as nat),
{
    let n = line.unicode_len();
    let limit = if n <= budget || n - budget <= shift {
        n
    } else {
        budget
    };
    shorten(line, limit)
}

/// Lays out a title and an artist: when the artist is empty the separator is
/// empty and the title takes both budgets; each field is then fitted.
pub fn layout(title: &str, artist: &str, budget: usize, shift: usize) -> (r: LineLayout)
    requires
        budget + budget <= usize::MAX,
    ensures
        r.separator@ == separator_of(artist@),
        r.title@ == fitted(title@, title_budget(artist@, budget as nat), shift as nat),
        r.artist@ == fitted(artist@, budget as nat, shift as nat),
{
    let empty = artist.unicode_len() == 0;
    let separator = if empty {
        String::new()
    } else {
        String::from_str(" — ")
    };
    let title_limit = if empty {
        budget + budget
    } else {
        budget
    };
    LineLayout {
        title: fit_field(title, title_limit, shift),
        artist: fit_field(artist, budget, shift),
        separator,
    }
}

/// Layout with the default budget and tolerance.
pub fn layout_default(title: &str, artist: &str) -> (r: LineLayout)
    ensures
        r.separator@ == separator_of(artist@),
        r.title@ == fitted(title@, title_budget(artist@, FIELD_BUDGET as nat), SHIFT_TOLERANCE as nat),
        r.artist@ == fitted(artist@, FIELD_BUDGET as nat, SHIFT_TOLERANCE as nat),
{
    layout(title, artist, FIELD_BUDGET, SHIFT_TOLERANCE)
}

} // verus!
