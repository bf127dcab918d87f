//! Character-sequence helpers shared by the other modules.

use vstd::prelude::*;

verus! {

/// `prefix` is a prefix of `s`.
pub open spec fn has_prefix(s: Seq<char>, prefix: Seq<char>) -> bool {
    prefix.len() <= s.len() && s.subrange(0, prefix.len() as int) == prefix
}

/// Whether `s` starts with `prefix`, compared character by character.
pub fn str_starts_with(s: &str, prefix: &str) -> (res: bool)
    ensures
        res == has_prefix(s@, prefix@),
{
    let n = s.unicode_len();
    let m = prefix.unicode_len();
    if m > n {
        return false;
    }
    let mut i: usize = 0;
    while i < m
        invariant
            n == s@.len(),
            m == prefix@.len(),
            m <= n,
            i <= m,
            forall|j: int| 0 <= j < i ==> s@[j] == prefix@[j],
        decreases m - i,
    {
        if s.get_char(i) != prefix.get_char(i) {
            assert(s@.subrange(0, m as int)[i as int] != prefix@[i as int]);
            return false;
        }
        i = i + 1;
    }
    assert(s@.subrange(0, m as int) =~= prefix@);
    true
}

/// Unicode `White_Space` characters, the ones that `str::trim` removes.
pub open spec fn is_white_space(c: char) -> bool {
    ||| '\u{9}' <= c <= '\u{d}'
    ||| c == ' '
    ||| c == '\u{85}'
    ||| c == '\u{a0}'
    ||| c == '\u{1680}'
    ||| '\u{2000}' <= c <= '\u{200a}'
    ||| c == '\u{2028}'
    ||| c == '\u{2029}'
    ||| c == '\u{202f}'
    ||| c == '\u{205f}'
    ||| c == '\u{3000}'
}

pub fn char_is_white_space(c: char) -> (res: bool)
    ensures
        res == is_white_space(c),
{
    ('\u{9}' <= c && c <= '\u{d}') || c == ' ' || c == '\u{85}' || c == '\u{a0}' || c == '\u{1680}'
        || ('\u{2000}' <= c && c <= '\u{200a}') || c == '\u{2028}' || c == '\u{2029}' || c
        == '\u{202f}' || c == '\u{205f}' || c == '\u{3000}'
}

/// `s` without leading and trailing white space.
pub open spec fn spec_trim(s: Seq<char>) -> Seq<char>
    decreases s.len(),
{
    if s.len() > 0 && is_white_space(s[0]) {
        spec_trim(s.drop_first())
    } else if s.len() > 0 && is_white_space(s.last()) {
        spec_trim(s.drop_last())
    } else {
        s
    }
}

/// `s` without leading and trailing white space.
pub fn trim(s: &str) -> (res: &str)
    ensures
        res@ == spec_trim(s@),
{
    let n = s.unicode_len();
    let mut lo: usize = 0;
    assert(s@.subrange(0, n as int) =~= s@);
    while lo < n && char_is_white_space(s.get_char(lo))
        invariant
            n == s@.len(),
            lo <= n,
            spec_trim(s@) == spec_trim(s@.subrange(lo as int, n as int)),
        decreases n - lo,
    {
        let ghost sub = s@.subrange(lo as int, n as int);
        assert(sub.drop_first() =~= s@.subrange(lo + 1, n as int));
        lo = lo + 1;
    }
    let mut hi: usize = n;
    while hi > lo && char_is_white_space(s.get_char(hi - 1))
        invariant
            n == s@.len(),
            lo <= hi <= n,
            lo < hi ==> !is_white_space(s@[lo as int]),
            spec_trim(s@) == spec_trim(s@.subrange(lo as int, hi as int)),
        decreases hi - lo,
    {
        let ghost sub = s@.subrange(lo as int, hi as int);
        assert(sub.drop_last() =~= s@.subrange(lo as int, hi - 1));
        if hi - 1 == lo {
            assert(sub[0] == s@[lo as int]);
        }
        hi = hi - 1;
    }
    let ghost sub = s@.subrange(lo as int, hi as int);
    if lo < hi {
        assert(sub[0] == s@[lo as int]);
        assert(sub.last() == s@[hi - 1]);
    }
    s.substring_char(lo, hi)
}

/// What `has_prefix` means, position by position.
pub proof fn lemma_has_prefix(s: Seq<char>, prefix: Seq<char>)
    ensures
        has_prefix(s, prefix) <==> prefix.len() <= s.len() && forall|i: int|
            0 <= i < prefix.len() ==> s[i] == prefix[i],
{
    if prefix.len() <= s.len() {
        if forall|i: int| 0 <= i < prefix.len() ==> s[i] == prefix[i] {
            assert(s.subrange(0, prefix.len() as int) =~= prefix);
        } else {
            let i = choose|i: int| 0 <= i < prefix.len() && s[i] != prefix[i];
            assert(s.subrange(0, prefix.len() as int)[i] == s[i]);
        }
    }
}

/// Every character of `s` in `[from, to)` is white space.
pub open spec fn all_white_space(s: Seq<char>, from: int, to: int) -> bool {
    forall|i: int| from <= i < to ==> is_white_space(#[trigger] s[i])
}

/// `s.subrange(lo, hi)` is `s` with only white space cut off on both sides.
pub open spec fn trimmed_between(s: Seq<char>, lo: int, hi: int) -> bool {
    &&& 0 <= lo <= hi <= s.len()
    &&& all_white_space(s, 0, lo)
    &&& all_white_space(s, hi, s.len() as int)
    &&& lo < hi ==> !is_white_space(s[lo]) && !is_white_space(s[hi - 1])
}

/// The bounds of the trimmed part of `s`.
proof fn lemma_trim_bounds(s: Seq<char>) -> (r: (int, int))
    ensures
        trimmed_between(s, r.0, r.1),
        spec_trim(s) == s.subrange(r.0, r.1),
    decreases s.len(),
{
    if s.len() > 0 && is_white_space(s[0]) {
        let t = s.drop_first();
        let (lo, hi) = lemma_trim_bounds(t);
        assert(s.subrange(lo + 1, hi + 1) =~= t.subrange(lo, hi));
        assert forall|i: int| 0 <= i < lo + 1 implies is_white_space(#[trigger] s[i]) by {
            if i > 0 {
                assert(s[i] == t[i - 1]);
            }
        }
        assert forall|i: int| hi + 1 <= i < s.len() implies is_white_space(#[trigger] s[i]) by {
            assert(s[i] == t[i - 1]);
        }
        if lo < hi {
            assert(s[lo + 1] == t[lo]);
            assert(s[hi] == t[hi - 1]);
        }
        (lo + 1, hi + 1)
    } else if s.len() > 0 && is_white_space(s.last()) {
        let t = s.drop_last();
        let (lo, hi) = lemma_trim_bounds(t);
        assert(s.subrange(lo, hi) =~= t.subrange(lo, hi));
        assert forall|i: int| 0 <= i < lo implies is_white_space(#[trigger] s[i]) by {
            assert(s[i] == t[i]);
        }
        assert forall|i: int| hi <= i < s.len() implies is_white_space(#[trigger] s[i]) by {
            if i < t.len() {
                assert(s[i] == t[i]);
            }
        }
        if lo < hi {
            assert(s[lo] == t[lo]);
            assert(s[hi - 1] == t[hi - 1]);
        }
        (lo, hi)
    } else {
        assert(s.subrange(0, s.len() as int) =~= s);
        (0, s.len() as int)
    }
}

/// What trimming does, over every text: the result is a contiguous part of
/// the text, everything cut off before and after it is white space, and
/// the result neither starts nor ends with white space.
pub proof fn lemma_trim(s: Seq<char>)
    ensures
        exists|lo: int, hi: int|
            trimmed_between(s, lo, hi) && #[trigger] s.subrange(lo, hi) == spec_trim(s),
        spec_trim(s).len() > 0 ==> !is_white_space(spec_trim(s)[0]) && !is_white_space(
            spec_trim(s).last(),
        ),
{
    let (lo, hi) = lemma_trim_bounds(s);
    assert(s.subrange(lo, hi) == spec_trim(s));
    if lo < hi {
        assert(spec_trim(s)[0] == s[lo]);
        assert(spec_trim(s).last() == s[hi - 1]);
    }
}

} // verus!
