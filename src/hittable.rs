use vstd::prelude::*;

verus! {

/// Member `i` of a scan holds the nearest hit: it was hit, no member is hit
/// nearer, and every member before it that was hit lies strictly farther.
/// Each entry is the ordering key of a member's hit distance, or `None` for a miss.
pub open spec fn is_closest(hits: Seq<Option<u64>>, i: int) -> bool {
    &&& 0 <= i < hits.len()
    &&& hits[i] is Some
    &&& forall|j: int|
        0 <= j < hits.len() && #[trigger] hits[j] is Some ==> hits[i]->0 <= hits[j]->0
    &&& forall|j: int| 0 <= j < i && #[trigger] hits[j] is Some ==> hits[i]->0 < hits[j]->0
}

pub open spec fn all_miss(hits: Seq<Option<u64>>) -> bool {
    forall|j: int| 0 <= j < hits.len() ==> #[trigger] hits[j] is None
}

/// Scans the members in order, keeping a hit only when it is strictly nearer
/// than the nearest one kept so far; ties go to the member met first.
pub fn closest_hit(hits: &Vec<Option<u64>>) -> (r: Option<usize>)
    ensures
        r is None <==> all_miss(hits@),
        r matches Some(i) ==> is_closest(hits@, i as int),
{
    let mut best: Option<usize> = None;
    let mut closest_so_far: u64 = u64::MAX;
    let mut i: usize = 0;
    while i < hits.len()
        invariant
            i <= hits@.len(),
            best is None ==> forall|j: int| 0 <= j < i ==> #[trigger] hits@[j] is None,
            best matches Some(b) ==> {
                &&& b < i
                &&& hits@[b as int] == Some(closest_so_far)
                &&& forall|j: int|
                    0 <= j < i && #[trigger] hits@[j] is Some ==> closest_so_far <= hits@[j]->0
                &&& forall|j: int|
                    0 <= j < b && #[trigger] hits@[j] is Some ==> closest_so_far < hits@[j]->0
            },
        decreases hits@.len() - i,
    {
        if let Some(t) = hits[i] {
            if best.is_none() || t < closest_so_far {
                best = Some(i);
                closest_so_far = t;
            }
        }
        i = i + 1;
    }
    best
}

/// The nearest hit does not depend on the order of the scene's members: two
/// scans over the same hits, in any order, report the same hit. When no two
/// members are hit at the same distance, that is the same member.
pub proof fn lemma_closest_order_free(s1: Seq<Option<u64>>, s2: Seq<Option<u64>>, i1: int, i2: int)
    requires
        s1.to_set() == s2.to_set(),
        is_closest(s1, i1),
        is_closest(s2, i2),
    ensures
        s1[i1] == s2[i2],
{
    assert(s1.to_set().contains(s1[i1]));
    assert(s2.to_set().contains(s2[i2]));
    let j2 = choose|j: int| 0 <= j < s2.len() && s2[j] == s1[i1];
    let j1 = choose|j: int| 0 <= j < s1.len() && s1[j] == s2[i2];
    assert(s2[j2] is Some);
    assert(s1[j1] is Some);
}

} // verus!
