use crate::line_string::{Coord, LineString};
use crate::reduction::{is_reduction_of, keeps, lemma_reduction_reflexive};
use vstd::prelude::*;

verus! {

/// `kept` is a usable choice of positions in a sequence of `n` items: every
/// position lies below `n`, the positions rise strictly, and unless `n` is
/// zero the first position is `0` and the last is `n - 1`.
pub open spec fn selects(kept: Seq<usize>, n: int) -> bool {
    &&& forall|k: int| 0 <= k < kept.len() ==> (#[trigger] kept[k]) < n
    &&& forall|j: int, k: int| 0 <= j < k < kept.len() ==> kept[j] < kept[k]
    &&& n > 0 ==> kept.len() > 0 && kept[0] == 0 && kept[kept.len() - 1] == n - 1
}

/// The items of `original` at the positions `kept`, in the order of `kept`.
pub open spec fn picked<A>(kept: Seq<usize>, original: Seq<A>) -> Seq<A> {
    Seq::new(kept.len(), |k: int| original[kept[k] as int])
}

/// Picking by a usable choice of positions gives a reduction.
pub proof fn lemma_picked_is_reduction<A>(kept: Seq<usize>, original: Seq<A>)
    requires
        selects(kept, original.len() as int),
    ensures
        is_reduction_of(picked(kept, original), original),
{
    let positions = Seq::new(kept.len(), |k: int| kept[k] as int);
    assert(keeps(positions, original, picked(kept, original)));
}

/// Tells whether `kept` is a usable choice of positions among `n` items.
pub fn is_selection(kept: &Vec<usize>, n: usize) -> (ok: bool)
    ensures
        ok == selects(kept@, n as int),
{
    if kept.len() == 0 {
        return n == 0;
    }
    if n == 0 {
        assert(!(kept@[0] < 0));
        return false;
    }
    if kept[0] != 0 || kept[kept.len() - 1] != n - 1 {
        return false;
    }
    let mut i: usize = 1;
    while i < kept.len()
        invariant
            1 <= i <= kept.len(),
            forall|j: int, k: int| 0 <= j < k < i ==> kept@[j] < kept@[k],
        decreases kept.len() - i,
    {
        if kept[i - 1] >= kept[i] {
            return false;
        }
        i = i + 1;
    }
    assert forall|k: int| 0 <= k < kept@.len() implies (#[trigger] kept@[k]) < n by {
        if k < kept@.len() - 1 {
            assert(kept@[k] < kept@[kept@.len() - 1]);
        }
    }
    true
}

/// Keeps the vertices of `path` at the positions `kept` and drops the rest.
///
/// A choice of positions that is not usable (one out of range, out of order
/// or without both ends) is ignored, and the path comes back whole. Either
/// way the result is a reduction of `path`.
pub fn pick<T: Copy>(path: &LineString<T>, kept: &Vec<usize>) -> (reduced: LineString<T>)
    ensures
        is_reduction_of(reduced@, path@),
        selects(kept@, path@.len() as int) ==> reduced@ == picked(kept@, path@),
        !selects(kept@, path@.len() as int) ==> reduced@ == path@,
{
    if !is_selection(kept, path.0.len()) {
        proof {
            lemma_reduction_reflexive(path@);
        }
        return path.clone();
    }
    let mut coords: Vec<Coord<T>> = Vec::new();
    let mut i: usize = 0;
    while i < kept.len()
        invariant
            selects(kept@, path@.len() as int),
            i <= kept.len(),
            coords@ == picked(kept@.take(i as int), path@),
        decreases kept.len() - i,
    {
        let c: Coord<T> = path.0[kept[i]];
        coords.push(c);
        i = i + 1;
    }
    proof {
        assert(kept@.take(i as int) == kept@);
        lemma_picked_is_reduction(kept@, path@);
    }
    LineString::new(coords)
}

} // verus!
