//! The nearest hit along a ray.
//!
//! A scene is an ordered list of shapes. Testing a ray against each of them gives a
//! list of the same length: `Some` of the encoded hit distance where the shape is
//! hit, `None` where it is missed. The scan below picks the winner from that list.
//! Its winner always has a distance that is a finite number and at least
//! `MIN_DISTANCE`: a result without such a distance is passed over like a miss.
use vstd::prelude::*;
use crate::binary32::{number_rank, rank, INFINITY};
use crate::intersect::{hit_distance, MIN_DISTANCE};

verus! {

/// Whether a shape's result can win the scan: it is a hit, and its distance is a
/// finite number and at least `MIN_DISTANCE`.
pub open spec fn candidate(hit: Option<u32>) -> bool {
    hit matches Some(bits) && hit_distance(bits)
}

/// The rank of a hit's distance.
pub open spec fn hit_rank(hit: Option<u32>) -> int
    recommends
        hit is Some,
{
    rank(hit->0)
}

/// Whether shape `i` is the nearest hit: a candidate that no candidate undercuts
/// and that no earlier candidate equals. The first shape in list order wins a tie.
pub open spec fn is_closest(hits: Seq<Option<u32>>, i: int) -> bool {
    &&& 0 <= i < hits.len()
    &&& candidate(hits[i])
    &&& forall|j: int|
        0 <= j < hits.len() && candidate(#[trigger] hits[j]) ==> hit_rank(hits[i]) <= hit_rank(
            hits[j],
        )
    &&& forall|j: int|
        0 <= j < i && candidate(#[trigger] hits[j]) ==> hit_rank(hits[i]) < hit_rank(hits[j])
}

/// The index of the nearest hit, if the ray hits anything.
pub open spec fn closest(hits: Seq<Option<u32>>) -> Option<int> {
    if exists|i: int| is_closest(hits, i) {
        Some(choose|i: int| is_closest(hits, i))
    } else {
        None
    }
}

/// The rank of the nearest hit's distance, if the ray hits anything.
pub open spec fn closest_rank(hits: Seq<Option<u32>>) -> Option<int> {
    match closest(hits) {
        Some(i) => Some(hit_rank(hits[i])),
        None => None,
    }
}

/// At most one shape is the nearest hit.
pub proof fn lemma_closest_unique(hits: Seq<Option<u32>>, i: int, j: int)
    requires
        is_closest(hits, i),
        is_closest(hits, j),
    ensures
        i == j,
{
}

/// The nearest hit is the shape that `is_closest` singles out.
pub proof fn lemma_closest_is(hits: Seq<Option<u32>>, i: int)
    requires
        is_closest(hits, i),
    ensures
        closest(hits) == Some(i),
{
    let c = choose|c: int| is_closest(hits, c);
    lemma_closest_unique(hits, c, i);
}

/// Without a candidate there is no nearest hit.
pub proof fn lemma_closest_none(hits: Seq<Option<u32>>)
    requires
        forall|j: int| 0 <= j < hits.len() ==> !candidate(#[trigger] hits[j]),
    ensures
        closest(hits) is None,
{
    if exists|i: int| is_closest(hits, i) {
        let c = choose|c: int| is_closest(hits, c);
        assert(candidate(hits[c]));
    }
}

/// One step of the scan, from a list without its last shape to the whole list,
/// where shape `i` was the nearest hit before: the last shape takes over if it is
/// a candidate and strictly nearer, and else shape `i` stays.
proof fn lemma_scan_keeps_or_takes(hits: Seq<Option<u32>>, i: int)
    requires
        hits.len() > 0,
        is_closest(hits.drop_last(), i),
    ensures
        candidate(hits.last()) && hit_rank(hits.last()) < hit_rank(hits[i]) ==> is_closest(
            hits,
            hits.len() - 1,
        ),
        !(candidate(hits.last()) && hit_rank(hits.last()) < hit_rank(hits[i])) ==> is_closest(
            hits,
            i,
        ),
{
    let front = hits.drop_last();
    assert forall|j: int| 0 <= j < front.len() implies front[j] == #[trigger] hits[j] by {}
    assert forall|j: int| 0 <= j < front.len() && candidate(#[trigger] hits[j]) implies hit_rank(
        hits[i],
    ) <= hit_rank(hits[j]) by {
        assert(candidate(front[j]));
    }
    assert forall|j: int| 0 <= j < i && candidate(#[trigger] hits[j]) implies hit_rank(hits[i])
        < hit_rank(hits[j]) by {
        assert(candidate(front[j]));
    }
}

/// One step of the scan where no shape was a candidate before: the last shape is
/// the nearest hit if it is a candidate.
proof fn lemma_scan_takes_first(hits: Seq<Option<u32>>)
    requires
        hits.len() > 0,
        forall|j: int| 0 <= j < hits.len() - 1 ==> !candidate(#[trigger] hits[j]),
        candidate(hits.last()),
    ensures
        is_closest(hits, hits.len() - 1),
{
}

/// Where any shape is a candidate, some shape is the nearest hit.
pub proof fn lemma_closest_exists(hits: Seq<Option<u32>>)
    requires
        exists|j: int| 0 <= j < hits.len() && candidate(#[trigger] hits[j]),
    ensures
        closest(hits) is Some,
        exists|i: int| is_closest(hits, i),
    decreases hits.len(),
{
    let front = hits.drop_last();
    if exists|j: int| 0 <= j < front.len() && candidate(#[trigger] front[j]) {
        lemma_closest_exists(front);
        let i = choose|i: int| is_closest(front, i);
        lemma_scan_keeps_or_takes(hits, i);
    } else {
        assert forall|j: int| 0 <= j < hits.len() - 1 implies !candidate(#[trigger] hits[j]) by {
            assert(hits[j] == front[j]);
        }
        lemma_scan_takes_first(hits);
    }
}

/// The nearest distance is the least: some shape that is a candidate lies at it,
/// and no candidate lies nearer. There is none only where no shape is a candidate.
pub proof fn lemma_closest_rank_is_least(hits: Seq<Option<u32>>)
    ensures
        match closest_rank(hits) {
            Some(least) => {
                &&& exists|j: int|
                    0 <= j < hits.len() && candidate(#[trigger] hits[j]) && hit_rank(hits[j])
                        == least
                &&& forall|j: int|
                    0 <= j < hits.len() && candidate(#[trigger] hits[j]) ==> least <= hit_rank(
                        hits[j],
                    )
            },
            None => forall|j: int| 0 <= j < hits.len() ==> !candidate(#[trigger] hits[j]),
        },
{
    if exists|j: int| 0 <= j < hits.len() && candidate(#[trigger] hits[j]) {
        lemma_closest_exists(hits);
        let i = closest(hits)->0;
        assert(is_closest(hits, i));
    }
}

/// The nearest distance does not depend on the order in which the shapes stand in
/// the scene: two lists that hold the same results equally often have the same
/// nearest distance, or both have none.
pub proof fn lemma_closest_rank_order_free(a: Seq<Option<u32>>, b: Seq<Option<u32>>)
    requires
        a.to_multiset() == b.to_multiset(),
    ensures
        closest_rank(a) == closest_rank(b),
{
    a.to_multiset_ensures();
    b.to_multiset_ensures();
    assert forall|x: Option<u32>| a.contains(x) <==> b.contains(x) by {
        assert(a.contains(x) <==> a.to_multiset().count(x) > 0);
        assert(b.contains(x) <==> b.to_multiset().count(x) > 0);
    }
    lemma_closest_rank_is_least(a);
    lemma_closest_rank_is_least(b);
    assert forall|j: int| 0 <= j < a.len() implies b.contains(#[trigger] a[j]) by {
        assert(a.contains(a[j]));
    }
    assert forall|j: int| 0 <= j < b.len() implies a.contains(#[trigger] b[j]) by {
        assert(b.contains(b[j]));
    }
}

/// Scans the per-shape results of one ray and returns the index of the nearest hit.
///
/// The scan starts from an infinite distance and moves to a hit only when it is
/// strictly nearer than the best so far. A hit at an infinite distance, one whose
/// distance is not a number and one nearer than `MIN_DISTANCE` are never chosen,
/// and of two equally near hits the earlier one stays.
///
/// So the distance of the nearest hit is a finite number of at least
/// `MIN_DISTANCE`, whatever the list holds. Where every hit in the list has such a
/// distance, there is a nearest hit unless every shape is missed.
pub fn closest_intersection(hits: &[Option<u32>]) -> (nearest: Option<usize>)
    ensures
        closest(hits@) == (match nearest {
            Some(i) => Some(i as int),
            None => None,
        }),
        nearest matches Some(i) ==> is_closest(hits@, i as int),
        nearest is None ==> forall|j: int|
            0 <= j < hits@.len() ==> !candidate(#[trigger] hits@[j]),
        nearest matches Some(i) ==> hits@[i as int] matches Some(d) && hit_distance(d),
        (forall|j: int| 0 <= j < hits@.len() ==> candidate(#[trigger] hits@[j]) || hits@[j] is None)
            ==> (nearest is None <==> forall|j: int|
            0 <= j < hits@.len() ==> (#[trigger] hits@[j]) is None),
{
    let mut best: Option<usize> = None;
    let floor: i64 = MIN_DISTANCE as i64;
    let mut best_rank: i64 = INFINITY as i64;
    let mut n: usize = 0;
    while n < hits.len()
        invariant
            n <= hits@.len(),
            floor == MIN_DISTANCE,
            best_rank <= INFINITY,
            best is None ==> best_rank == INFINITY,
            best is None ==> forall|j: int| 0 <= j < n ==> !candidate(#[trigger] hits@[j]),
            best matches Some(i) ==> i < n && is_closest(hits@.take(n as int), i as int)
                && best_rank == hit_rank(hits@[i as int]),
        decreases hits@.len() - n,
    {
        let ghost grown = hits@.take(n + 1);
        assert(grown.drop_last() =~= hits@.take(n as int));
        let mut improved: bool = false;
        if let Some(bits) = hits[n] {
            if let Some(r) = number_rank(bits) {
                if floor <= r && r < best_rank {
                    improved = true;
                    best_rank = r;
                }
            }
        }
        proof {
            match best {
                Some(i) => lemma_scan_keeps_or_takes(grown, i as int),
                None => if improved {
                    lemma_scan_takes_first(grown);
                },
            }
        }
        if improved {
            best = Some(n);
        }
        n = n + 1;
    }
    assert(hits@.take(n as int) =~= hits@);
    proof {
        match best {
            Some(i) => lemma_closest_is(hits@, i as int),
            None => lemma_closest_none(hits@),
        }
    }
    best
}

} // verus!
