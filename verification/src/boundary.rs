use crate::line_string::{Coord, LineString};
use crate::pos::Pos;
use vstd::prelude::*;

verus! {

/// The internal vertex that stands for boundary point `p`: `x` stays `x` and
/// `y` stays `y`.
pub open spec fn coord_of<T>(p: Pos<T>) -> Coord<T> {
    Coord { x: p.x, y: p.y }
}

/// The boundary point that stands for internal vertex `c`.
pub open spec fn pos_of<T>(c: Coord<T>) -> Pos<T> {
    Pos { x: c.x, y: c.y }
}

/// The internal path of a boundary sequence: vertex `i` is point `i`.
pub open spec fn path_of<T>(points: Seq<Pos<T>>) -> Seq<Coord<T>> {
    Seq::new(points.len(), |i: int| coord_of(points[i]))
}

/// The boundary sequence of an internal path: point `i` is vertex `i`.
pub open spec fn points_of<T>(path: Seq<Coord<T>>) -> Seq<Pos<T>> {
    Seq::new(path.len(), |i: int| pos_of(path[i]))
}

/// Copies a boundary sequence into a freshly allocated internal path.
pub fn to_internal<T: Copy>(sequence: &Vec<Pos<T>>) -> (path: LineString<T>)
    ensures
        path@ == path_of(sequence@),
{
    let mut coords: Vec<Coord<T>> = Vec::new();
    let mut i: usize = 0;
    while i < sequence.len()
        invariant
            i <= sequence.len(),
            coords@ == path_of(sequence@.take(i as int)),
        decreases sequence.len() - i,
    {
        let p: Pos<T> = sequence[i];
        coords.push(Coord { x: p.x, y: p.y });
        i = i + 1;
    }
    assert(sequence@.take(i as int) == sequence@);
    LineString::new(coords)
}

/// Copies an internal path into a freshly allocated boundary sequence.
pub fn from_internal<T: Copy>(path: &LineString<T>) -> (sequence: Vec<Pos<T>>)
    ensures
        sequence@ == points_of(path@),
{
    let mut sequence: Vec<Pos<T>> = Vec::new();
    let mut i: usize = 0;
    while i < path.0.len()
        invariant
            i <= path@.len(),
            sequence@ == points_of(path@.take(i as int)),
        decreases path@.len() - i,
    {
        let c: Coord<T> = path.0[i];
        sequence.push(Pos { x: c.x, y: c.y });
        i = i + 1;
    }
    assert(path@.take(i as int) == path@);
    sequence
}

/// Round trip from the boundary: converting a boundary sequence to its
/// internal path and back gives the same sequence, coordinate for coordinate,
/// whatever its length.
pub proof fn lemma_round_trip<T>(points: Seq<Pos<T>>)
    ensures
        points_of(path_of(points)) == points,
{
    assert(points_of(path_of(points)) =~= points);
}

/// Round trip from the inside: converting an internal path to its boundary
/// sequence and back gives the same path.
pub proof fn lemma_round_trip_internal<T>(path: Seq<Coord<T>>)
    ensures
        path_of(points_of(path)) == path,
{
    assert(path_of(points_of(path)) =~= path);
}

} // verus!
