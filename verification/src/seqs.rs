//! Helpers for sets represented as duplicate-free sequences.
//!
//! The input normalizers keep their pressed-key and pressed-button sets as
//! vectors without duplicates; the specifications below describe membership
//! after inserting or removing one element.

use vstd::prelude::*;

verus! {

/// No value occurs twice in the sequence.
pub open spec fn seq_no_dups<T>(s: Seq<T>) -> bool {
    forall|i: int, j: int| 0 <= i < j < s.len() ==> s[i] != s[j]
}

/// Membership in `post` is membership in `pre` with the single element `k`
/// made present or absent.
pub open spec fn seq_set_rel<T>(pre: Seq<T>, post: Seq<T>, k: T, present: bool) -> bool {
    forall|x: T|
        #[trigger] post.contains(x) <==> (if present {
            pre.contains(x) || x == k
        } else {
            pre.contains(x) && x != k
        })
}

/// Pushing an element onto a sequence makes exactly that element newly
/// present, and keeps the sequence duplicate-free when it was absent.
pub proof fn lemma_push_set_rel<T>(s: Seq<T>, k: T)
    ensures
        seq_set_rel(s, s.push(k), k, true),
        seq_no_dups(s) && !s.contains(k) ==> seq_no_dups(s.push(k)),
{
    assert forall|x: T| #[trigger] s.push(k).contains(x) implies (s.contains(x) || x == k) by {
        let i = choose|i: int| 0 <= i < s.push(k).len() && s.push(k)[i] == x;
        if i < s.len() {
            assert(s[i] == x);
        }
    }
    assert forall|x: T| s.contains(x) || x == k implies #[trigger] s.push(k).contains(x) by {
        if s.contains(x) {
            let i = choose|i: int| 0 <= i < s.len() && s[i] == x;
            assert(s.push(k)[i] == x);
        } else {
            assert(s.push(k)[s.len() as int] == x);
        }
    }
    if seq_no_dups(s) && !s.contains(k) {
        assert forall|i: int, j: int| 0 <= i < j < s.push(k).len() implies s.push(k)[i]
            != s.push(k)[j] by {
            if j == s.len() {
                assert(s[i] == s.push(k)[i]);
            }
        }
    }
}

/// A sequence already containing `k` is unchanged by making `k` present.
pub proof fn lemma_present_set_rel<T>(s: Seq<T>, k: T)
    requires
        s.contains(k),
    ensures
        seq_set_rel(s, s, k, true),
{
}

/// A sequence not containing `k` is unchanged by making `k` absent.
pub proof fn lemma_absent_set_rel<T>(s: Seq<T>, k: T)
    requires
        !s.contains(k),
    ensures
        seq_set_rel(s, s, k, false),
{
    assert forall|x: T| #[trigger] s.contains(x) implies x != k by {}
}

} // verus!
