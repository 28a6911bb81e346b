//! The first position at which a predicate holds.

use vstd::prelude::*;

verus! {

/// The first index of `s` whose element satisfies `pred`.
pub open spec fn first_match<A>(s: Seq<A>, pred: spec_fn(A) -> bool) -> Option<int>
    decreases s.len(),
{
    if s.len() == 0 {
        None
    } else {
        match first_match(s.drop_last(), pred) {
            Some(i) => Some(i),
            None => if pred(s.last()) {
                Some(s.len() - 1)
            } else {
                None
            },
        }
    }
}

pub proof fn lemma_first_match_found<A>(s: Seq<A>, pred: spec_fn(A) -> bool, i: int)
    requires
        0 <= i < s.len(),
        pred(s[i]),
        first_match(s.take(i), pred) is None,
    ensures
        first_match(s, pred) == Some(i),
    decreases s.len(),
{
    if i + 1 < s.len() {
        assert(s.drop_last().take(i) == s.take(i));
        lemma_first_match_found(s.drop_last(), pred, i);
    } else {
        assert(s.drop_last() == s.take(i));
    }
}

pub proof fn lemma_first_match_step<A>(s: Seq<A>, pred: spec_fn(A) -> bool, i: int)
    requires
        0 <= i < s.len(),
        !pred(s[i]),
        first_match(s.take(i), pred) is None,
    ensures
        first_match(s.take(i + 1), pred) is None,
{
    assert(s.take(i + 1).drop_last() == s.take(i));
}

pub proof fn lemma_first_match_all<A>(s: Seq<A>, pred: spec_fn(A) -> bool)
    requires
        first_match(s.take(s.len() as int), pred) is None,
    ensures
        first_match(s, pred) is None,
{
    assert(s.take(s.len() as int) == s);
}

/// No position matches exactly when no element satisfies the predicate.
pub proof fn lemma_first_match_none<A>(s: Seq<A>, pred: spec_fn(A) -> bool)
    ensures
        first_match(s, pred) is None <==> forall|i: int| 0 <= i < s.len() ==> !pred(#[trigger] s[i]),
    decreases s.len(),
{
    if s.len() > 0 {
        let rest = s.drop_last();
        lemma_first_match_none(rest, pred);
        if first_match(s, pred) is None {
            assert forall|i: int| 0 <= i < s.len() implies !pred(#[trigger] s[i]) by {
                if i < rest.len() {
                    assert(rest[i] == s[i]);
                }
            }
        }
        if forall|i: int| 0 <= i < s.len() ==> !pred(#[trigger] s[i]) {
            assert forall|i: int| 0 <= i < rest.len() implies !pred(#[trigger] rest[i]) by {
                assert(rest[i] == s[i]);
            }
            assert(!pred(s[s.len() - 1]));
        }
    }
}

} // verus!
