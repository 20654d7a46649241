//! The first element of a sequence that satisfies a predicate, which is what
//! every lookup in this crate returns.

use vstd::prelude::*;

verus! {

/// The first element of `s` satisfying `p`, if any.
pub open spec fn first_match<T>(s: Seq<T>, p: spec_fn(T) -> bool) -> Option<T>
    decreases s.len(),
{
    if s.len() == 0 {
        None
    } else {
        match first_match(s.drop_last(), p) {
            Some(x) => Some(x),
            None => if p(s.last()) {
                Some(s.last())
            } else {
                None
            },
        }
    }
}

/// `first_match` finds nothing exactly when no element satisfies `p`, and
/// otherwise finds an element that satisfies `p` with none before it that
/// does.
pub proof fn lemma_first_match<T>(s: Seq<T>, p: spec_fn(T) -> bool)
    ensures
        first_match(s, p) is None <==> forall|i: int| 0 <= i < s.len() ==> !p(#[trigger] s[i]),
        first_match(s, p) is Some ==> exists|i: int|
            0 <= i < s.len() && s[i] == first_match(s, p)->0 && p(s[i]) && forall|j: int|
                0 <= j < i ==> !p(#[trigger] s[j]),
    decreases s.len(),
{
    if s.len() > 0 {
        let prefix = s.drop_last();
        lemma_first_match(prefix, p);
        assert forall|i: int| 0 <= i < prefix.len() implies prefix[i] == s[i] by {}
        if first_match(prefix, p) is Some {
            let i = choose|i: int|
                0 <= i < prefix.len() && prefix[i] == first_match(prefix, p)->0 && p(prefix[i])
                    && forall|j: int| 0 <= j < i ==> !p(#[trigger] prefix[j]);
            assert(s[i] == prefix[i]);
            assert forall|j: int| 0 <= j < i implies !p(#[trigger] s[j]) by {
                assert(s[j] == prefix[j]);
            }
            assert(!(forall|k: int| 0 <= k < s.len() ==> !p(#[trigger] s[k])));
        } else {
            assert forall|j: int| 0 <= j < s.len() - 1 implies !p(#[trigger] s[j]) by {
                assert(s[j] == prefix[j]);
            }
            if p(s.last()) {
                assert(!(forall|k: int| 0 <= k < s.len() ==> !p(#[trigger] s[k])));
            } else {
                assert forall|j: int| 0 <= j < s.len() implies !p(#[trigger] s[j]) by {
                    if j < s.len() - 1 {
                        assert(s[j] == prefix[j]);
                    }
                }
            }
        }
    }
}

/// A match found in a prefix is the match of every longer prefix.
pub proof fn lemma_first_match_extends<T>(s: Seq<T>, p: spec_fn(T) -> bool, m: int, n: int)
    requires
        0 <= m <= n <= s.len(),
        first_match(s.take(m), p) is Some,
    ensures
        first_match(s.take(n), p) == first_match(s.take(m), p),
    decreases n - m,
{
    if n > m {
        lemma_first_match_extends(s, p, m, n - 1);
        assert(s.take(n).drop_last() =~= s.take(n - 1));
    }
}

/// Appending one element to a prefix with no match finds that element
/// exactly when it matches.
pub proof fn lemma_first_match_step<T>(s: Seq<T>, p: spec_fn(T) -> bool, i: int)
    requires
        0 <= i < s.len(),
        first_match(s.take(i), p) is None,
    ensures
        first_match(s.take(i + 1), p) == (if p(s[i]) {
            Some(s[i])
        } else {
            None::<T>
        }),
{
    assert(s.take(i + 1).drop_last() =~= s.take(i));
}

} // verus!
