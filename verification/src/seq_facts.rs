//! Facts about filtering sequences.

use vstd::prelude::*;

verus! {

/// Filtering one more element of a prefix.
pub proof fn lemma_filter_step<A>(s: Seq<A>, p: spec_fn(A) -> bool, i: int)
    requires
        0 <= i < s.len(),
    ensures
        s.take(i + 1).filter(p) == (if p(s[i]) {
            s.take(i).filter(p).push(s[i])
        } else {
            s.take(i).filter(p)
        }),
{
    reveal_with_fuel(Seq::filter, 1);
    assert(s.take(i + 1).drop_last() =~= s.take(i));
    assert(s.take(i + 1).last() == s[i]);
}

/// Once a prefix of `s` has a non-empty filter, its first element is the
/// first element of the filter of `s`.
pub proof fn lemma_filter_prefix_head<A>(s: Seq<A>, p: spec_fn(A) -> bool, n: int)
    requires
        0 <= n <= s.len(),
        s.take(n).filter(p).len() > 0,
    ensures
        s.filter(p).len() > 0,
        s.filter(p)[0] == s.take(n).filter(p)[0],
    decreases s.len() - n,
{
    if n < s.len() {
        reveal_with_fuel(Seq::filter, 1);
        assert(s.take(n + 1).drop_last() == s.take(n));
        lemma_filter_prefix_head(s, p, n + 1);
    } else {
        assert(s.take(n) == s);
    }
}

/// Filtering by a predicate and by its negation splits a sequence in two.
pub proof fn lemma_filter_partition<A>(s: Seq<A>, p: spec_fn(A) -> bool, q: spec_fn(A) -> bool)
    requires
        forall|x: A| #[trigger] q(x) == !p(x),
    ensures
        s.filter(p).len() + s.filter(q).len() == s.len(),
    decreases s.len(),
{
    reveal_with_fuel(Seq::filter, 1);
    if s.len() > 0 {
        lemma_filter_partition(s.drop_last(), p, q);
    }
}

/// Filtering by a predicate that no element meets leaves nothing.
pub proof fn lemma_filter_none<A>(s: Seq<A>, p: spec_fn(A) -> bool)
    requires
        forall|i: int| 0 <= i < s.len() ==> !p(#[trigger] s[i]),
    ensures
        s.filter(p).len() == 0,
    decreases s.len(),
{
    reveal_with_fuel(Seq::filter, 1);
    if s.len() > 0 {
        assert forall|i: int| 0 <= i < s.drop_last().len() implies !p(#[trigger] s.drop_last()[i]) by {
            assert(s.drop_last()[i] == s[i]);
        }
        lemma_filter_none(s.drop_last(), p);
    }
}

/// An element that meets the predicate stays after filtering.
pub proof fn lemma_filter_keeps<A>(s: Seq<A>, p: spec_fn(A) -> bool, i: int)
    requires
        0 <= i < s.len(),
        p(s[i]),
    ensures
        s.filter(p).contains(s[i]),
    decreases s.len(),
{
    reveal_with_fuel(Seq::filter, 1);
    if i < s.len() - 1 {
        assert(s.drop_last()[i] == s[i]);
        lemma_filter_keeps(s.drop_last(), p, i);
        let k = choose|k: int| 0 <= k < s.drop_last().filter(p).len() && s.drop_last().filter(p)[k] == s[i];
        if p(s.last()) {
            assert(s.filter(p)[k] == s[i]);
        }
    } else {
        assert(s.filter(p).last() == s[i]);
    }
}

} // verus!
