use crate::boundary::{path_of, points_of};
use crate::line_string::Coord;
use crate::pos::Pos;
use vstd::prelude::*;

verus! {

/// `reduced` is `original` with only the positions listed in `kept` left in:
/// the positions rise strictly, each lies inside `original`, item `k` of
/// `reduced` is the item of `original` at position `kept[k]`, and unless
/// `original` is empty its first and its last position are both kept.
pub open spec fn keeps<A>(kept: Seq<int>, original: Seq<A>, reduced: Seq<A>) -> bool {
    &&& kept.len() == reduced.len()
    &&& forall|k: int|
        0 <= k < kept.len() ==> 0 <= #[trigger] kept[k] < original.len() && reduced[k]
            == original[kept[k]]
    &&& forall|j: int, k: int| 0 <= j < k < kept.len() ==> kept[j] < kept[k]
    &&& original.len() > 0 ==> kept.len() > 0 && kept[0] == 0 && kept[kept.len() - 1]
        == original.len() - 1
}

/// `reduced` can be had from `original` by dropping interior items only:
/// nothing is added, nothing is reordered, and both ends stay.
pub open spec fn is_reduction_of<A>(reduced: Seq<A>, original: Seq<A>) -> bool {
    exists|kept: Seq<int>| keeps(kept, original, reduced)
}

proof fn lemma_kept_position_at_least_rank<A>(
    kept: Seq<int>,
    original: Seq<A>,
    reduced: Seq<A>,
    k: int,
)
    requires
        keeps(kept, original, reduced),
        0 <= k < kept.len(),
    ensures
        kept[k] >= k,
    decreases k,
{
    if k > 0 {
        lemma_kept_position_at_least_rank(kept, original, reduced, k - 1);
    }
}

proof fn lemma_kept_position_leaves_room<A>(
    kept: Seq<int>,
    original: Seq<A>,
    reduced: Seq<A>,
    k: int,
)
    requires
        keeps(kept, original, reduced),
        0 <= k < kept.len(),
    ensures
        kept[k] <= original.len() - (kept.len() - k),
    decreases kept.len() - k,
{
    if k + 1 < kept.len() {
        lemma_kept_position_leaves_room(kept, original, reduced, k + 1);
    }
}

/// Every sequence is a reduction of itself.
pub proof fn lemma_reduction_reflexive<A>(s: Seq<A>)
    ensures
        is_reduction_of(s, s),
{
    let kept = Seq::new(s.len(), |i: int| i);
    assert(keeps(kept, s, s));
}

/// A reduction is never longer than what it reduces.
pub proof fn lemma_reduction_is_no_longer<A>(reduced: Seq<A>, original: Seq<A>)
    requires
        is_reduction_of(reduced, original),
    ensures
        reduced.len() <= original.len(),
{
    let kept = choose|kept: Seq<int>| keeps(kept, original, reduced);
    if kept.len() > 0 {
        lemma_kept_position_at_least_rank(kept, original, reduced, kept.len() - 1);
    }
}

/// A reduction that is as long as what it reduces has dropped nothing: it is
/// that sequence.
pub proof fn lemma_full_length_reduction_is_identity<A>(reduced: Seq<A>, original: Seq<A>)
    requires
        is_reduction_of(reduced, original),
        reduced.len() == original.len(),
    ensures
        reduced == original,
{
    let kept = choose|kept: Seq<int>| keeps(kept, original, reduced);
    assert forall|k: int| 0 <= k < reduced.len() implies reduced[k] == original[k] by {
        lemma_kept_position_at_least_rank(kept, original, reduced, k);
        lemma_kept_position_leaves_room(kept, original, reduced, k);
    }
    assert(reduced =~= original);
}

/// A reduction of a non-empty sequence starts and ends as that sequence does.
pub proof fn lemma_reduction_keeps_endpoints<A>(reduced: Seq<A>, original: Seq<A>)
    requires
        is_reduction_of(reduced, original),
        original.len() > 0,
    ensures
        reduced.len() > 0,
        reduced[0] == original[0],
        reduced[reduced.len() - 1] == original[original.len() - 1],
{
    let kept = choose|kept: Seq<int>| keeps(kept, original, reduced);
}

/// A sequence of at most two items has no interior, so its only reduction is
/// the sequence itself.
pub proof fn lemma_short_sequence_is_its_only_reduction<A>(reduced: Seq<A>, original: Seq<A>)
    requires
        is_reduction_of(reduced, original),
        original.len() <= 2,
    ensures
        reduced == original,
{
    let kept = choose|kept: Seq<int>| keeps(kept, original, reduced);
    lemma_reduction_is_no_longer(reduced, original);
    assert(reduced =~= original);
}

/// Reduction survives the boundary: when an internal path `reduced` is a
/// reduction of the internal path of `points`, the boundary sequence of
/// `reduced` is a reduction of `points`.
pub proof fn lemma_reduction_crosses_boundary<T>(points: Seq<Pos<T>>, reduced: Seq<Coord<T>>)
    requires
        is_reduction_of(reduced, path_of(points)),
    ensures
        is_reduction_of(points_of(reduced), points),
{
    let kept = choose|kept: Seq<int>| keeps(kept, path_of(points), reduced);
    assert forall|k: int| 0 <= k < kept.len() implies points_of(reduced)[k]
        == points[#[trigger] kept[k]] by {
        assert(reduced[k] == path_of(points)[kept[k]]);
    }
    assert(keeps(kept, points, points_of(reduced)));
}

} // verus!
