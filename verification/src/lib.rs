//! Polyline simplification behind a by-value boundary.
//!
//! A caller on the far side of a language boundary hands over an ordered
//! sequence of planar points and a tolerance, and takes a reduced sequence
//! back. This crate holds the two representations of such a sequence, the
//! copying conversions between them with the proofs that converting loses
//! nothing, the rule for the tolerance to reduce with, and [`simplify`],
//! which builds the reduced sequence from the positions that stay.
//!
//! Measuring distances is arithmetic on coordinates and is left to the
//! caller's reduction engine; all it hands back is positions. What is proved
//! here therefore holds of any engine: the result is the input with interior
//! points left out, every remaining pair verbatim and in its original order,
//! both ends in place.
//!
//! The coordinate type is a parameter. Nothing here inspects a coordinate,
//! so whatever the caller puts in (a NaN, an infinity) comes out unchanged.

pub mod boundary;
pub mod line_string;
pub mod pos;
pub mod reduction;
pub mod selection;
pub mod simplify;
pub mod tolerance;

pub use boundary::{from_internal, to_internal};
pub use line_string::{Coord, LineString};
pub use pos::Pos;
pub use selection::{is_selection, pick};
pub use simplify::simplify;
pub use tolerance::working_tolerance;
