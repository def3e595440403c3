use vstd::prelude::*;

verus! {

/// One vertex of an internal path.
#[derive(Debug, PartialEq)]
pub struct Coord<T> {
    pub x: T,
    pub y: T,
}

impl<T: Copy> Clone for Coord<T> {
    fn clone(&self) -> (copy: Self)
        ensures
            copy == *self,
    {
        *self
    }
}

impl<T: Copy> Copy for Coord<T> {

}

/// An internal path: vertices joined by straight segments, in the order in
/// which they are stored. Any number of vertices is a path, none and one
/// included.
#[derive(Debug, PartialEq)]
pub struct LineString<T>(pub Vec<Coord<T>>);

impl<T> View for LineString<T> {
    type V = Seq<Coord<T>>;

    /// The vertices in path order.
    open spec fn view(&self) -> Seq<Coord<T>> {
        self.0@
    }
}

impl<T: Copy> Clone for LineString<T> {
    fn clone(&self) -> (copy: Self)
        ensures
            copy@ == self@,
    {
        let mut coords: Vec<Coord<T>> = Vec::new();
        let mut i: usize = 0;
        while i < self.0.len()
            invariant
                i <= self@.len(),
                coords@ == self@.take(i as int),
            decreases self@.len() - i,
        {
            let c: Coord<T> = self.0[i];
            coords.push(c);
            i = i + 1;
        }
        assert(self@.take(i as int) == self@);
        LineString(coords)
    }
}

impl<T> LineString<T> {
    /// Wraps `coords` as a path without touching them.
    pub fn new(coords: Vec<Coord<T>>) -> (path: Self)
        ensures
            path@ == coords@,
    {
        LineString(coords)
    }
}

} // verus!
