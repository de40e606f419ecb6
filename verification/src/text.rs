//! Text helpers: decoding and trimming of tool output, comparison of strings.

use vstd::prelude::*;
use vstd::utf8::{decode_utf8, valid_utf8};

verus! {

/// Whether a character has the Unicode `White_Space` property, as
/// `char::is_whitespace` reports it.
pub uninterp spec fn white_space(c: char) -> bool;

/// Calls `char::is_whitespace`; the contract gives its answer the name
/// `white_space`.
#[verifier::external_body]
fn is_white_space(c: char) -> (r: bool)
    ensures
        r == white_space(c),
{
    c.is_whitespace()
}

/// Calls `String::from_utf8`: the text that the bytes encode, if they are
/// valid UTF-8, and nothing otherwise.
#[verifier::external_body]
pub(crate) fn decode_text(bytes: Vec<u8>) -> (r: Option<String>)
    ensures
        r is Some <==> valid_utf8(bytes@),
        r matches Some(s) ==> s@ == decode_utf8(bytes@),
{
    match String::from_utf8(bytes) {
        Ok(s) => Some(s),
        Err(_) => None,
    }
}

/// The first index at or after `from` that holds no white space, or the
/// length of `s` if there is none.
pub open spec fn text_start(s: Seq<char>, from: int) -> int
    decreases s.len() - from,
{
    if 0 <= from < s.len() && white_space(s[from]) {
        text_start(s, from + 1)
    } else {
        from
    }
}

/// The end of the text in `s[lo..to]`: the least index `j >= lo` such that
/// `s[j..to]` is white space only.
pub open spec fn text_end(s: Seq<char>, lo: int, to: int) -> int
    decreases to,
{
    if 0 <= lo < to <= s.len() && white_space(s[to - 1]) {
        text_end(s, lo, to - 1)
    } else {
        to
    }
}

/// `s` without its leading and trailing white space.
pub open spec fn trimmed(s: Seq<char>) -> Seq<char> {
    let i = text_start(s, 0);
    s.subrange(i, text_end(s, i, s.len() as int))
}

/// Where the text starts: everything before is white space, and the
/// character there, if any, is not.
proof fn lemma_text_start_bounds(s: Seq<char>, from: int)
    requires
        0 <= from <= s.len(),
    ensures
        from <= text_start(s, from) <= s.len(),
        forall|k: int| from <= k < text_start(s, from) ==> white_space(#[trigger] s[k]),
        text_start(s, from) < s.len() ==> !white_space(s[text_start(s, from)]),
    decreases s.len() - from,
{
    if from < s.len() && white_space(s[from]) {
        lemma_text_start_bounds(s, from + 1);
    }
}

/// Where the text ends: everything after is white space, and the character
/// before, if any, is not.
proof fn lemma_text_end_bounds(s: Seq<char>, lo: int, to: int)
    requires
        0 <= lo <= to <= s.len(),
    ensures
        lo <= text_end(s, lo, to) <= to,
        forall|k: int| text_end(s, lo, to) <= k < to ==> white_space(#[trigger] s[k]),
        lo < text_end(s, lo, to) ==> !white_space(s[text_end(s, lo, to) - 1]),
    decreases to,
{
    if lo < to && white_space(s[to - 1]) {
        lemma_text_end_bounds(s, lo, to - 1);
    }
}

/// Trimmed text neither starts nor ends with white space, and what trimming
/// leaves out is white space only: the result is empty exactly when `s` holds
/// nothing else.
pub proof fn lemma_trimmed_is_tight(s: Seq<char>)
    ensures
        trimmed(s).len() <= s.len(),
        trimmed(s).len() > 0 ==> !white_space(trimmed(s).first()) && !white_space(
            trimmed(s).last(),
        ),
        trimmed(s).len() == 0 <==> (forall|k: int| 0 <= k < s.len() ==> white_space(#[trigger] s[k])),
{
    let i = text_start(s, 0);
    lemma_text_start_bounds(s, 0);
    lemma_text_end_bounds(s, i, s.len() as int);
    let j = text_end(s, i, s.len() as int);
    if i < j {
        assert(trimmed(s).first() == s[i]);
        assert(trimmed(s).last() == s[j - 1]);
    }
}

/// Removes leading and trailing white space.
pub fn trim(s: &str) -> (r: &str)
    ensures
        r@ == trimmed(s@),
{
    let n: usize = s.unicode_len();
    let mut start: usize = 0;
    while start < n && is_white_space(s.get_char(start))
        invariant
            n == s@.len(),
            0 <= start <= n,
            text_start(s@, 0) == text_start(s@, start as int),
        decreases n - start,
    {
        start = start + 1;
    }
    let mut end: usize = n;
    while end > start && is_white_space(s.get_char(end - 1))
        invariant
            n == s@.len(),
            start <= end <= n,
            text_end(s@, start as int, n as int) == text_end(s@, start as int, end as int),
        decreases end,
    {
        end = end - 1;
    }
    s.substring_char(start, end)
}

/// Whether two strings hold the same characters.
pub fn same_text(a: &str, b: &str) -> (r: bool)
    ensures
        r == (a@ == b@),
{
    let n: usize = a.unicode_len();
    if n != b.unicode_len() {
        return false;
    }
    let mut i: usize = 0;
    while i < n
        invariant
            n == a@.len(),
            n == b@.len(),
            0 <= i <= n,
            forall|k: int| 0 <= k < i ==> a@[k] == b@[k],
        decreases n - i,
    {
        if a.get_char(i) != b.get_char(i) {
            return false;
        }
        i = i + 1;
    }
    assert(a@ =~= b@);
    true
}

} // verus!
