use vstd::prelude::*;

verus! {

/// A tolerance is handled here by its bit pattern in the IEEE 754 binary64
/// format, which is an integer. `bits` is a zero of that format, positive or
/// negative.
pub open spec fn is_zero_pattern(bits: u64) -> bool {
    bits == 0 || bits == 0x8000_0000_0000_0000
}

/// The pattern of the least positive binary64 value.
pub open spec fn least_positive_pattern() -> u64 {
    1
}

/// The tolerance that the reduction works with when the caller asked for
/// `bits`: the least positive value in place of a zero, and otherwise what the
/// caller asked for, a negative value or one that is not a number included.
pub open spec fn working_tolerance_of(bits: u64) -> u64 {
    if is_zero_pattern(bits) {
        least_positive_pattern()
    } else {
        bits
    }
}

/// Gives the pattern of the tolerance to reduce with.
///
/// A reduction at a tolerance of zero or less leaves a path untouched. At
/// zero the vertices that lie on the segment between their neighbours are
/// meant to go, so zero is replaced by the least positive value. Reducing
/// with that value drops a vertex when its computed distance is at most that
/// value: a vertex exactly on the segment, and also one whose distance
/// computes to the least positive value itself.
pub fn working_tolerance(bits: u64) -> (working: u64)
    ensures
        working == working_tolerance_of(bits),
{
    if bits == 0 || bits == 0x8000_0000_0000_0000 {
        1
    } else {
        bits
    }
}

} // verus!
