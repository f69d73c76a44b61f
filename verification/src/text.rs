//! Identifier normalization.
//!
//! Emails, usernames and establishment names are normalized before use:
//! leading and trailing blanks are removed and ASCII capitals are
//! lowered, so that lookups and ownership comparisons are insensitive to
//! how the identifier was typed.

use vstd::prelude::*;
use vstd::string::StrSliceExecFns;

verus! {

/// The blank characters stripped from an identifier's ends.
pub open spec fn is_blank(c: char) -> bool {
    c == ' ' || c == '\t' || c == '\n' || c == '\r'
}

/// An ASCII capital lowered; any other character unchanged.
pub open spec fn lower_char(c: char) -> char {
    if 'A' <= c && c <= 'Z' {
        (((c as u8) + 32) as char)
    } else {
        c
    }
}

/// A sequence with every character lowered.
pub open spec fn lower_seq(s: Seq<char>) -> Seq<char> {
    s.map_values(|c: char| lower_char(c))
}

/// A sequence with leading and trailing blanks removed.
pub open spec fn trimmed(s: Seq<char>) -> Seq<char>
    decreases s.len(),
{
    if s.len() == 0 {
        s
    } else if is_blank(s.first()) {
        trimmed(s.drop_first())
    } else if is_blank(s.last()) {
        trimmed(s.drop_last())
    } else {
        s
    }
}

/// The normal form of an identifier: blanks stripped from the ends, then
/// every ASCII capital lowered.
pub open spec fn normalized(s: Seq<char>) -> Seq<char> {
    lower_seq(trimmed(s))
}

/// Relies on String::push: appends the character at the end of the
/// string.
#[verifier::external_body]
fn push_char(s: &mut String, c: char)
    ensures
        final(s)@ == old(s)@.push(c),
{
    s.push(c);
}

/// Whether a character is one of the blanks stripped by normalization.
fn blank(c: char) -> (r: bool)
    ensures
        r == is_blank(c),
{
    c == ' ' || c == '\t' || c == '\n' || c == '\r'
}

/// The character with an ASCII capital lowered.
fn to_lower(c: char) -> (r: char)
    ensures
        r == lower_char(c),
{
    let u = c as u32;
    if 65 <= u && u <= 90 {
        ((u + 32) as u8) as char
    } else {
        c
    }
}

/// The normal form of an identifier: leading and trailing blanks
/// removed, ASCII capitals lowered.
pub fn normalize_identifier(s: &str) -> (r: String)
    ensures
        r@ =~= normalized(s@),
{
    let len = s.unicode_len();
    let mut lo: usize = 0;
    let mut hi: usize = len;
    assert(s@.subrange(0, s@.len() as int) =~= s@);
    while lo < hi && blank(s.get_char(lo))
        invariant
            0 <= lo <= hi <= s@.len(),
            hi == s@.len(),
            trimmed(s@) == trimmed(s@.subrange(lo as int, hi as int)),
        decreases hi - lo,
    {
        let ghost cur = s@.subrange(lo as int, hi as int);
        assert(cur.drop_first() =~= s@.subrange(lo + 1, hi as int));
        lo = lo + 1;
    }
    while lo < hi && blank(s.get_char(hi - 1))
        invariant
            0 <= lo <= hi <= s@.len(),
            trimmed(s@) == trimmed(s@.subrange(lo as int, hi as int)),
            lo < hi ==> !is_blank(s@[lo as int]),
        decreases hi - lo,
    {
        let ghost cur = s@.subrange(lo as int, hi as int);
        assert(cur.first() == s@[lo as int]);
        assert(cur.drop_last() =~= s@.subrange(lo as int, hi - 1));
        hi = hi - 1;
    }
    let ghost cut = s@.subrange(lo as int, hi as int);
    proof {
        if lo == hi {
            assert(cut =~= Seq::<char>::empty());
            assert(trimmed(s@) =~= cut);
        } else {
            assert(cut.first() == s@[lo as int]);
            assert(cut.last() == s@[hi - 1]);
            assert(trimmed(cut) == cut);
        }
    }
    let mut out = String::new();
    let mut i: usize = lo;
    while i < hi
        invariant
            lo <= i <= hi <= s@.len(),
            cut == s@.subrange(lo as int, hi as int),
            trimmed(s@) == cut,
            out@ =~= lower_seq(cut.take(i - lo)),
        decreases hi - i,
    {
        let c = to_lower(s.get_char(i));
        push_char(&mut out, c);
        assert(cut.take(i + 1 - lo) =~= cut.take(i - lo).push(s@[i as int]));
        assert(out@ =~= lower_seq(cut.take(i + 1 - lo)));
        i = i + 1;
    }
    assert(cut.take(hi - lo) =~= cut);
    out
}

} // verus!
