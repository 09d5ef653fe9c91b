//! The first element of a sequence that meets a condition.

use vstd::prelude::*;

verus! {

/// Whether `i` is the position of the first element of `s` that meets
/// `wanted`.
pub open spec fn is_first<T>(s: Seq<T>, wanted: spec_fn(T) -> bool, i: int) -> bool {
    &&& 0 <= i < s.len()
    &&& wanted(s[i])
    &&& forall|j: int| 0 <= j < i ==> !wanted(#[trigger] s[j])
}

/// The position of the first element of `s` that meets `wanted`, if one
/// does.
pub open spec fn first_index<T>(s: Seq<T>, wanted: spec_fn(T) -> bool) -> Option<int> {
    if exists|i: int| is_first(s, wanted, i) {
        Some(choose|i: int| is_first(s, wanted, i))
    } else {
        None
    }
}

/// There is one first position at most.
pub proof fn first_index_found<T>(s: Seq<T>, wanted: spec_fn(T) -> bool, i: int)
    requires
        is_first(s, wanted, i),
    ensures
        first_index(s, wanted) == Some(i),
{
}

/// Where no element meets the condition there is no first position.
pub proof fn first_index_missing<T>(s: Seq<T>, wanted: spec_fn(T) -> bool)
    requires
        forall|j: int| 0 <= j < s.len() ==> !wanted(#[trigger] s[j]),
    ensures
        first_index(s, wanted) is None,
{
}

/// The first position is a position of the sequence, its element meets
/// the condition, and no element before it does.
pub proof fn first_index_is_first<T>(s: Seq<T>, wanted: spec_fn(T) -> bool)
    ensures
        first_index(s, wanted) matches Some(i) ==> is_first(s, wanted, i),
        first_index(s, wanted) is None ==> forall|j: int|
            0 <= j < s.len() ==> !wanted(#[trigger] s[j]),
{
    if first_index(s, wanted) is None {
        assert forall|j: int| 0 <= j < s.len() implies !wanted(#[trigger] s[j]) by {
            if wanted(s[j]) {
                least_position(s, wanted, j);
            }
        }
    }
}

/// Below a position whose element meets the condition lies a first one.
proof fn least_position<T>(s: Seq<T>, wanted: spec_fn(T) -> bool, j: int)
    requires
        0 <= j < s.len(),
        wanted(s[j]),
    ensures
        exists|i: int| is_first(s, wanted, i),
    decreases j,
{
    if exists|k: int| 0 <= k < j && wanted(#[trigger] s[k]) {
        let k = choose|k: int| 0 <= k < j && wanted(#[trigger] s[k]);
        least_position(s, wanted, k);
    } else {
        assert(is_first(s, wanted, j));
    }
}

} // verus!
