//! The four compass directions and their unit vectors.

use vstd::prelude::*;

verus! {

/// A compass direction, one of the four unit steps on the grid.
///
/// The vertical axis grows southward: north is negative `y`, south is
/// positive `y`.
#[derive(Clone, Copy, Debug, PartialEq, Eq, Structural)]
pub enum Direction {
    North,
    East,
    South,
    West,
}

/// The unit vector of a direction, as a mathematical value.
pub open spec fn spec_vector(d: Direction) -> (int, int) {
    match d {
        Direction::North => (0, -1),
        Direction::East => (1, 0),
        Direction::South => (0, 1),
        Direction::West => (-1, 0),
    }
}

impl Direction {
    /// The `(dx, dy)` unit vector that a step in this direction adds to a
    /// location.
    pub fn to_vector(self) -> (r: (i32, i32))
        ensures
            (r.0 as int, r.1 as int) == spec_vector(self),
    {
        match self {
            Direction::North => (0, -1),
            Direction::East => (1, 0),
            Direction::South => (0, 1),
            Direction::West => (-1, 0),
        }
    }
}

} // verus!
