//! The first element of a sequence that meets a condition.

use vstd::prelude::*;

verus! {

/// Whether some element of `s` meets `wanted`.
pub open spec fn has_match<T>(s: Seq<T>, wanted: spec_fn(T) -> bool) -> bool {
    exists|i: int| 0 <= i < s.len() && wanted(#[trigger] s[i])
}

/// Whether `pos` is the first place in `s` whose element meets `wanted`.
pub open spec fn is_first_match<T>(s: Seq<T>, wanted: spec_fn(T) -> bool, pos: int) -> bool {
    &&& 0 <= pos < s.len()
    &&& wanted(s[pos])
    &&& forall|j: int| 0 <= j < pos ==> !wanted(#[trigger] s[j])
}

/// The first place in `s` whose element meets `wanted`, if there is one.
pub open spec fn first_match<T>(s: Seq<T>, wanted: spec_fn(T) -> bool) -> Option<int> {
    if has_match(s, wanted) {
        Some(choose|pos: int| is_first_match(s, wanted, pos))
    } else {
        None
    }
}

/// A sequence has at most one first match.
pub proof fn lemma_first_match_unique<T>(s: Seq<T>, wanted: spec_fn(T) -> bool, p: int, q: int)
    requires
        is_first_match(s, wanted, p),
        is_first_match(s, wanted, q),
    ensures
        p == q,
{
    if p < q {
        assert(!wanted(s[p]));
    } else if q < p {
        assert(!wanted(s[q]));
    }
}

/// A match at `pos` with none before it is the first match.
pub proof fn lemma_first_match_is<T>(s: Seq<T>, wanted: spec_fn(T) -> bool, pos: int)
    requires
        is_first_match(s, wanted, pos),
    ensures
        first_match(s, wanted) == Some(pos),
{
    assert(has_match(s, wanted));
    let chosen = choose|p: int| is_first_match(s, wanted, p);
    lemma_first_match_unique(s, wanted, chosen, pos);
}

/// Among the first `upto` elements, either none is a match or one of them is
/// the first match.
proof fn lemma_first_match_within<T>(s: Seq<T>, wanted: spec_fn(T) -> bool, upto: int)
    requires
        0 <= upto <= s.len(),
    ensures
        (forall|j: int| 0 <= j < upto ==> !wanted(#[trigger] s[j])) || (exists|p: int|
            p < upto && is_first_match(s, wanted, p)),
    decreases upto,
{
    if upto > 0 {
        lemma_first_match_within(s, wanted, upto - 1);
        if forall|j: int| 0 <= j < upto - 1 ==> !wanted(#[trigger] s[j]) {
            if wanted(s[upto - 1]) {
                assert(is_first_match(s, wanted, upto - 1));
            }
        } else {
            let p = choose|p: int| p < upto - 1 && is_first_match(s, wanted, p);
            assert(p < upto && is_first_match(s, wanted, p));
        }
    }
}

/// The first match, where there is one, is a match with none before it; where
/// there is none, no element of the sequence is a match.
pub proof fn lemma_first_match_sound<T>(s: Seq<T>, wanted: spec_fn(T) -> bool)
    ensures
        first_match(s, wanted) matches Some(pos) ==> is_first_match(s, wanted, pos),
        first_match(s, wanted) is None <==> !has_match(s, wanted),
{
    if has_match(s, wanted) {
        lemma_first_match_within(s, wanted, s.len() as int);
    }
}

} // verus!
