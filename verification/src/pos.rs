use vstd::prelude::*;

verus! {

/// A point as it crosses the boundary: a plain pair of coordinates, copied by
/// value and never aliased.
#[derive(Debug, PartialEq)]
pub struct Pos<T> {
    pub x: T,
    pub y: T,
}

impl<T: Copy> Clone for Pos<T> {
    fn clone(&self) -> (copy: Self)
        ensures
            copy == *self,
    {
        *self
    }
}

impl<T: Copy> Copy for Pos<T> {

}

} // verus!
