//! Order-keeping removal of repeated entries.

use vstd::prelude::*;

verus! {

/// `s` with every entry after its first occurrence removed; the first
/// occurrences keep their order.
pub open spec fn dedup_first<T>(s: Seq<T>) -> Seq<T>
    decreases s.len(),
{
    if s.len() == 0 {
        Seq::empty()
    } else {
        let kept = dedup_first(s.drop_last());
        if kept.contains(s.last()) {
            kept
        } else {
            kept.push(s.last())
        }
    }
}

/// No entry occurs twice.
pub open spec fn no_repeats<T>(s: Seq<T>) -> bool {
    forall|i: int, j: int| 0 <= i < j < s.len() ==> s[i] != s[j]
}

/// `dedup_first` keeps exactly the entries of its input, each once.
pub proof fn lemma_dedup_first_props<T>(s: Seq<T>)
    ensures
        no_repeats(dedup_first(s)),
        forall|x: T| dedup_first(s).contains(x) <==> s.contains(x),
        dedup_first(s).len() <= s.len(),
    decreases s.len(),
{
    if s.len() > 0 {
        let rest = s.drop_last();
        lemma_dedup_first_props(rest);
        let kept = dedup_first(rest);
        assert forall|x: T| dedup_first(s).contains(x) <==> s.contains(x) by {
            assert(kept.contains(x) <==> rest.contains(x));
            if s.contains(x) {
                let i = choose|i: int| 0 <= i < s.len() && s[i] == x;
                if i < s.len() - 1 {
                    assert(rest[i] == x);
                    assert(rest.contains(x));
                    assert(kept.contains(x));
                    if !kept.contains(s.last()) {
                        let k = choose|k: int| 0 <= k < kept.len() && kept[k] == x;
                        assert(kept.push(s.last())[k] == x);
                    }
                } else if !kept.contains(s.last()) {
                    assert(kept.push(s.last())[kept.len() as int] == x);
                }
            }
            if dedup_first(s).contains(x) {
                let k = choose|k: int| 0 <= k < dedup_first(s).len() && dedup_first(s)[k] == x;
                if k < kept.len() {
                    assert(kept[k] == x);
                    assert(kept.contains(x));
                    assert(rest.contains(x));
                    let i = choose|i: int| 0 <= i < rest.len() && rest[i] == x;
                    assert(s[i] == x);
                } else {
                    assert(s[s.len() - 1] == x);
                }
            }
        }
        if !kept.contains(s.last()) {
            let d = kept.push(s.last());
            assert forall|i: int, j: int| 0 <= i < j < d.len() implies d[i] != d[j] by {
                if j == kept.len() {
                    assert(kept[i] == d[i]);
                }
            }
        }
    }
}

/// Removing repeats a second time changes nothing.
pub proof fn lemma_dedup_first_idempotent<T>(s: Seq<T>)
    ensures
        dedup_first(dedup_first(s)) == dedup_first(s),
{
    lemma_dedup_first_props(s);
    lemma_dedup_first_no_repeats(dedup_first(s));
}

/// A sequence without repeats is its own `dedup_first`.
pub proof fn lemma_dedup_first_no_repeats<T>(s: Seq<T>)
    requires
        no_repeats(s),
    ensures
        dedup_first(s) == s,
    decreases s.len(),
{
    if s.len() > 0 {
        let rest = s.drop_last();
        assert(no_repeats(rest));
        lemma_dedup_first_no_repeats(rest);
        if rest.contains(s.last()) {
            let i = choose|i: int| 0 <= i < rest.len() && rest[i] == s.last();
            assert(s[i] == s[s.len() - 1]);
        }
        assert(rest.push(s.last()) =~= s);
    }
}

/// Every entry of `d` occurs in `s` before every occurrence in `s` of any
/// later entry of `d`.
pub open spec fn keeps_first_order<T>(s: Seq<T>, d: Seq<T>) -> bool {
    forall|i: int, j: int, b: int|
        #![trigger d[i], d[j], s[b]]
        0 <= i < j < d.len() && 0 <= b < s.len() && s[b] === d[j] ==> occurs_before(s, b, d[i])
}

/// `x` occurs in `s` before position `b`.
pub open spec fn occurs_before<T>(s: Seq<T>, b: int, x: T) -> bool {
    exists|a: int| 0 <= a < b && s[a] === x
}

/// `dedup_first` keeps first occurrences in their order: an entry that
/// comes earlier in the result occurs in the input before every
/// occurrence of any entry that comes later in the result.
pub proof fn lemma_dedup_first_order<T>(s: Seq<T>)
    ensures
        keeps_first_order(s, dedup_first(s)),
{
    let d = dedup_first(s);
    assert forall|i: int, j: int, b: int|
        #![trigger d[i], d[j], s[b]]
        0 <= i < j < d.len() && 0 <= b < s.len() && s[b] === d[j] implies occurs_before(s, b, d[i]) by {
        lemma_dedup_first_order_at(s, i, j, b);
    }
}

proof fn lemma_dedup_first_order_at<T>(s: Seq<T>, i: int, j: int, b: int)
    requires
        0 <= i < j < dedup_first(s).len(),
        0 <= b < s.len(),
        s[b] === dedup_first(s)[j],
    ensures
        occurs_before(s, b, dedup_first(s)[i]),
    decreases s.len(),
{
    let rest = s.drop_last();
    let kept = dedup_first(rest);
    let d = dedup_first(s);
    lemma_dedup_first_props(rest);
    assert(i < kept.len());
    assert(d[i] == kept[i]);
    if j < kept.len() {
        assert(d[j] == kept[j]);
        if b < s.len() - 1 {
            assert(rest[b] == kept[j]);
            lemma_dedup_first_order_at(rest, i, j, b);
            let a = choose|a: int| 0 <= a < b && #[trigger] rest[a] == kept[i];
            assert(s[a] == d[i]);
        } else {
            assert(kept[j] == kept[j]);
            assert(kept.contains(kept[j]));
            assert(rest.contains(kept[j]));
            let b2 = choose|b2: int| 0 <= b2 < rest.len() && rest[b2] == kept[j];
            lemma_dedup_first_order_at(rest, i, j, b2);
            let a = choose|a: int| 0 <= a < b2 && #[trigger] rest[a] == kept[i];
            assert(s[a] == d[i]);
        }
    } else {
        assert(!kept.contains(s.last()));
        assert(d[j] == s.last());
        if b < s.len() - 1 {
            assert(rest[b] == s.last());
            assert(rest.contains(s.last()));
            assert(false);
        }
        assert(kept.contains(kept[i]));
        assert(rest.contains(kept[i]));
        let a = choose|a: int| 0 <= a < rest.len() && rest[a] == kept[i];
        assert(s[a] == d[i]);
    }
}

} // verus!
