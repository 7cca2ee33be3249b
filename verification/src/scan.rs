//! Character-level text helpers shared by the record parser and the
//! path-splitting functions.

use vstd::prelude::*;

verus! {

/// Whether `lit` occurs in `s` starting at position `pos`.
pub open spec fn lit_at(s: Seq<char>, pos: int, lit: Seq<char>) -> bool {
    0 <= pos && pos + lit.len() <= s.len() && s.subrange(pos, pos + lit.len()) == lit
}

/// Compares two string slices by their character sequences.
pub fn str_eq(a: &str, b: &str) -> (r: bool)
    ensures
        r == (a@ == b@),
{
    let alen = a.unicode_len();
    let blen = b.unicode_len();
    if alen != blen {
        assert(a@ != b@) by {
            assert(a@.len() != b@.len());
        }
        return false;
    }
    let mut i: usize = 0;
    while i < alen
        invariant
            alen == a@.len(),
            alen == b@.len(),
            i <= alen,
            forall|j: int| 0 <= j < i ==> a@[j] == b@[j],
        decreases alen - i,
    {
        if a.get_char(i) != b.get_char(i) {
            assert(a@ != b@) by {
                assert(a@[i as int] != b@[i as int]);
            }
            return false;
        }
        i += 1;
    }
    proof {
        assert(a@ =~= b@);
    }
    true
}

/// Whether `pat` occurs in `s` starting at character position `pos`.
pub fn matches_at(s: &str, pos: usize, pat: &str) -> (r: bool)
    requires
        pos <= s@.len(),
    ensures
        r == lit_at(s@, pos as int, pat@),
        s@.len() <= usize::MAX,
{
    let plen = pat.unicode_len();
    let slen = s.unicode_len();
    if plen > slen - pos {
        assert(!lit_at(s@, pos as int, pat@));
        return false;
    }
    let mut i: usize = 0;
    while i < plen
        invariant
            plen == pat@.len(),
            slen == s@.len(),
            pos + plen <= slen,
            i <= plen,
            forall|j: int| 0 <= j < i ==> s@[pos + j] == pat@[j],
        decreases plen - i,
    {
        if s.get_char(pos + i) != pat.get_char(i) {
            assert(!lit_at(s@, pos as int, pat@)) by {
                if s@.subrange(pos as int, pos + pat@.len()) == pat@ {
                    assert(s@.subrange(pos as int, pos + pat@.len())[i as int] == pat@[i as int]);
                }
            }
            return false;
        }
        i += 1;
    }
    proof {
        assert(s@.subrange(pos as int, pos + pat@.len()) =~= pat@);
    }
    true
}

/// The least position `j` with `pos <= j < s.len()` and `s[j] == c`, or
/// `s.len()` if `c` does not occur at or after `pos`.
pub open spec fn find_char(s: Seq<char>, pos: int, c: char) -> int
    decreases s.len() - pos,
{
    if pos < 0 || pos >= s.len() {
        s.len() as int
    } else if s[pos] == c {
        pos
    } else {
        find_char(s, pos + 1, c)
    }
}

pub proof fn lemma_find_char_props(s: Seq<char>, pos: int, c: char)
    requires
        0 <= pos <= s.len(),
    ensures
        pos <= find_char(s, pos, c) <= s.len(),
        find_char(s, pos, c) < s.len() ==> s[find_char(s, pos, c)] == c,
        forall|j: int| pos <= j < find_char(s, pos, c) ==> s[j] != c,
    decreases s.len() - pos,
{
    if pos < s.len() && s[pos] != c {
        lemma_find_char_props(s, pos + 1, c);
    }
}

/// If the characters of `s` from `pos` on are `body + [c] + rest` and `c`
/// does not occur in `body`, the first occurrence of `c` is right after `body`.
pub proof fn lemma_find_char_after(s: Seq<char>, pos: int, c: char, body: Seq<char>)
    requires
        0 <= pos,
        pos + body.len() < s.len(),
        forall|j: int| 0 <= j < body.len() ==> s[pos + j] == body[j],
        forall|j: int| 0 <= j < body.len() ==> body[j] != c,
        s[pos + body.len()] == c,
    ensures
        find_char(s, pos, c) == pos + body.len(),
    decreases body.len(),
{
    if body.len() == 0 {
    } else {
        assert(s[pos] == body[0]);
        lemma_find_char_after(s, pos + 1, c, body.subrange(1, body.len() as int));
    }
}

/// Finds the first occurrence of `c` in `s` at or after position `pos`.
pub fn find_char_from(s: &str, pos: usize, c: char) -> (r: usize)
    requires
        pos <= s@.len(),
    ensures
        r == find_char(s@, pos as int, c),
        pos <= r <= s@.len(),
{
    let slen = s.unicode_len();
    let mut i: usize = pos;
    while i < slen
        invariant
            slen == s@.len(),
            pos <= i <= slen,
            find_char(s@, pos as int, c) == find_char(s@, i as int, c),
        decreases slen - i,
    {
        if s.get_char(i) == c {
            return i;
        }
        i += 1;
    }
    i
}

} // verus!
