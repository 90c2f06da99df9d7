//! Finding the first element of a sequence that meets a condition.
//!
//! Who stands on a tile and what lies on it are not stored: they are looked up
//! by a scan from the front, so ties go to the element that comes first.

use vstd::prelude::*;

verus! {

/// Whether `i` is the first index of `s` whose element meets `pred`.
pub open spec fn is_first_where<A>(s: Seq<A>, pred: spec_fn(A) -> bool, i: int) -> bool {
    &&& 0 <= i < s.len()
    &&& pred(s[i])
    &&& forall|j: int| 0 <= j < i ==> !pred(#[trigger] s[j])
}

/// The first index of `s` whose element meets `pred`, if there is one.
pub open spec fn first_where<A>(s: Seq<A>, pred: spec_fn(A) -> bool) -> Option<int> {
    if exists|i: int| is_first_where(s, pred, i) {
        Some(choose|i: int| is_first_where(s, pred, i))
    } else {
        None
    }
}

/// Whether some element of `s` meets `pred`.
pub open spec fn any_where<A>(s: Seq<A>, pred: spec_fn(A) -> bool) -> bool {
    exists|i: int| 0 <= i < s.len() && pred(#[trigger] s[i])
}

/// An index that is first for `pred` is the one that `first_where` names.
pub proof fn lemma_first_where_found<A>(s: Seq<A>, pred: spec_fn(A) -> bool, i: int)
    requires
        is_first_where(s, pred, i),
    ensures
        first_where(s, pred) == Some(i),
        any_where(s, pred),
{
    let c = choose|k: int| is_first_where(s, pred, k);
    assert(is_first_where(s, pred, c));
    if c < i {
        assert(!pred(s[c]));
    }
    if i < c {
        assert(!pred(s[i]));
    }
}

/// Where no element meets `pred`, `first_where` names none.
pub proof fn lemma_first_where_none<A>(s: Seq<A>, pred: spec_fn(A) -> bool)
    requires
        forall|j: int| 0 <= j < s.len() ==> !pred(#[trigger] s[j]),
    ensures
        first_where(s, pred) is None,
        !any_where(s, pred),
{
}

/// `first_where` names an index exactly when some element meets `pred`, and the
/// index it names is first.
pub proof fn lemma_first_where_is_first<A>(s: Seq<A>, pred: spec_fn(A) -> bool)
    ensures
        first_where(s, pred) is Some <==> any_where(s, pred),
        first_where(s, pred) matches Some(i) ==> is_first_where(s, pred, i),
{
    if any_where(s, pred) {
        let k = choose|k: int| 0 <= k < s.len() && pred(#[trigger] s[k]);
        lemma_least_witness(s, pred, k);
    }
}

proof fn lemma_least_witness<A>(s: Seq<A>, pred: spec_fn(A) -> bool, k: int)
    requires
        0 <= k < s.len(),
        pred(s[k]),
    ensures
        exists|i: int| is_first_where(s, pred, i),
    decreases k,
{
    if exists|j: int| 0 <= j < k && pred(#[trigger] s[j]) {
        let j = choose|j: int| 0 <= j < k && pred(#[trigger] s[j]);
        lemma_least_witness(s, pred, j);
    } else {
        assert(is_first_where(s, pred, k));
    }
}

} // verus!
