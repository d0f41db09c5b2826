//! First and last positions in a sequence at which a property holds.
use vstd::prelude::*;

verus! {

/// `i` is the first position of `s` whose element satisfies `p`.
pub open spec fn is_first_where<A>(s: Seq<A>, p: spec_fn(A) -> bool, i: int) -> bool {
    &&& 0 <= i < s.len()
    &&& p(s[i])
    &&& forall|j: int| 0 <= j < i ==> !p(#[trigger] s[j])
}

/// `i` is the last position of `s` whose element satisfies `p`.
pub open spec fn is_last_where<A>(s: Seq<A>, p: spec_fn(A) -> bool, i: int) -> bool {
    &&& 0 <= i < s.len()
    &&& p(s[i])
    &&& forall|j: int| i < j < s.len() ==> !p(#[trigger] s[j])
}

/// There is at most one first position where a property holds.
pub proof fn lemma_first_where_unique<A>(s: Seq<A>, p: spec_fn(A) -> bool, i: int, k: int)
    requires
        is_first_where(s, p, i),
        is_first_where(s, p, k),
    ensures
        i == k,
{
    if i < k {
        assert(!p(s[i]));
    } else if k < i {
        assert(!p(s[k]));
    }
}

/// There is at most one last position where a property holds.
pub proof fn lemma_last_where_unique<A>(s: Seq<A>, p: spec_fn(A) -> bool, i: int, k: int)
    requires
        is_last_where(s, p, i),
        is_last_where(s, p, k),
    ensures
        i == k,
{
    if i < k {
        assert(!p(s[k]));
    } else if k < i {
        assert(!p(s[i]));
    }
}

/// Where a property holds somewhere, it has a first position.
pub proof fn lemma_first_where_exists<A>(s: Seq<A>, p: spec_fn(A) -> bool, w: int) -> (m: int)
    requires
        0 <= w < s.len(),
        p(s[w]),
    ensures
        is_first_where(s, p, m),
    decreases w,
{
    if exists|j: int| 0 <= j < w && p(#[trigger] s[j]) {
        let j = choose|j: int| 0 <= j < w && p(#[trigger] s[j]);
        lemma_first_where_exists(s, p, j)
    } else {
        w
    }
}

/// Where a property holds somewhere, it has a last position.
pub proof fn lemma_last_where_exists<A>(s: Seq<A>, p: spec_fn(A) -> bool, w: int) -> (m: int)
    requires
        0 <= w < s.len(),
        p(s[w]),
    ensures
        is_last_where(s, p, m),
    decreases s.len() - w,
{
    if exists|j: int| w < j < s.len() && p(#[trigger] s[j]) {
        let j = choose|j: int| w < j < s.len() && p(#[trigger] s[j]);
        lemma_last_where_exists(s, p, j)
    } else {
        w
    }
}

} // verus!
