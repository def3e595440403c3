use crate::boundary::{from_internal, path_of, points_of, to_internal};
use crate::pos::Pos;
use crate::reduction::{
    is_reduction_of, lemma_full_length_reduction_is_identity, lemma_reduction_crosses_boundary,
    lemma_reduction_is_no_longer, lemma_reduction_keeps_endpoints,
    lemma_short_sequence_is_its_only_reduction,
};
use crate::selection::{pick, picked, selects};
use vstd::prelude::*;

verus! {

/// Reduces the polyline `input` to the points at the positions `kept`.
///
/// Which vertices of a path may go is a matter of distances between
/// coordinates, and the caller settles it: by running a Ramer-Douglas-Peucker
/// reduction over the internal path of `input` under its tolerance, it gets
/// the positions of the vertices that stay. This function does the rest. It
/// copies the points to the internal path, keeps the vertices at `kept`, and
/// copies them back.
///
/// The result is `input` with interior points left out, whatever `kept`
/// holds: a choice of positions that is out of range, out of order or without
/// both ends is ignored and every point is kept.
pub fn simplify<T: Copy>(input: &Vec<Pos<T>>, kept: &Vec<usize>) -> (result: Vec<Pos<T>>)
    ensures
        selects(kept@, input@.len() as int) ==> result@ == picked(kept@, input@),
        !selects(kept@, input@.len() as int) ==> result@ == input@,
        is_reduction_of(result@, input@),
        result@.len() <= input@.len(),
        input@.len() <= 2 ==> result@ == input@,
        result@.len() == input@.len() ==> result@ == input@,
        input@.len() > 0 ==> result@.len() > 0,
        input@.len() > 0 ==> result@[0] == input@[0],
        input@.len() > 0 ==> result@[result@.len() - 1] == input@[input@.len() - 1],
        input@.len() >= 2 ==> result@.len() >= 2,
{
    let path = to_internal(input);
    let reduced = pick(&path, kept);
    let result = from_internal(&reduced);
    proof {
        if selects(kept@, input@.len() as int) {
            assert(points_of(picked(kept@, path_of(input@))) =~= picked(kept@, input@));
        } else {
            assert(points_of(path_of(input@)) =~= input@);
        }
        lemma_reduction_crosses_boundary(input@, reduced@);
        lemma_reduction_is_no_longer(result@, input@);
        if input@.len() <= 2 {
            lemma_short_sequence_is_its_only_reduction(result@, input@);
        }
        if result@.len() == input@.len() {
            lemma_full_length_reduction_is_identity(result@, input@);
        }
        if input@.len() > 0 {
            lemma_reduction_keeps_endpoints(result@, input@);
        }
    }
    result
}

} // verus!
