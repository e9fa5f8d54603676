//! Cardinal axes of three-dimensional space, used to pick the plane into
//! which two-dimensional data is embedded.

use vstd::prelude::*;

verus! {

/// One of the three coordinate axes.
#[derive(Clone, Copy, PartialEq, Eq, Structural, Debug)]
pub enum CardinalDirection {
    X,
    Y,
    Z,
}

/// The position of the axis within an `(x, y, z)` coordinate triple.
pub open spec fn spec_as_index(dir: CardinalDirection) -> usize {
    match dir {
        CardinalDirection::X => 0,
        CardinalDirection::Y => 1,
        CardinalDirection::Z => 2,
    }
}

/// Returns the position of the axis within an `(x, y, z)` coordinate triple.
pub fn as_index(dir: &CardinalDirection) -> (r: usize)
    ensures
        r == spec_as_index(*dir),
{
    match dir {
        CardinalDirection::X => 0,
        CardinalDirection::Y => 1,
        CardinalDirection::Z => 2,
    }
}

/// The coordinate positions spanning the plane orthogonal to the axis.
pub open spec fn spec_plane_indices(dir: CardinalDirection) -> (usize, usize) {
    match dir {
        CardinalDirection::X => (1usize, 2usize),
        CardinalDirection::Y => (0usize, 2usize),
        CardinalDirection::Z => (0usize, 1usize),
    }
}

/// Returns the two coordinate positions spanning the plane orthogonal to
/// the given axis, in increasing order.
pub fn plane_indices(dir: CardinalDirection) -> (r: (usize, usize))
    ensures
        r == spec_plane_indices(dir),
{
    match dir {
        CardinalDirection::X => (1, 2),
        CardinalDirection::Y => (0, 2),
        CardinalDirection::Z => (0, 1),
    }
}

} // verus!
