//! An immutable 2-D point with signed integer coordinates.

use vstd::prelude::*;
use crate::direction::{spec_vector, Direction};

verus! {

/// A point on the tile grid.
///
/// Locations are ordered by `x` first, then `y`, when an order is needed.
#[derive(Clone, Copy, Debug, Default, PartialEq, Eq, Hash, PartialOrd, Ord, Structural)]
pub struct Location {
    pub x: i32,
    pub y: i32,
}

impl Location {
    /// The point `(x, y)`.
    pub fn new(x: i32, y: i32) -> (r: Location)
        ensures
            r == (Location { x, y }),
    {
        Location { x, y }
    }

    /// The point `(0, 0)`.
    pub fn origin() -> (r: Location)
        ensures
            r == (Location { x: 0, y: 0 }),
    {
        Location::new(0, 0)
    }

    /// The point translated by `(dx, dy)`.
    pub fn move_by(self, dx: i32, dy: i32) -> (r: Location)
        requires
            i32::MIN <= self.x + dx <= i32::MAX,
            i32::MIN <= self.y + dy <= i32::MAX,
        ensures
            r.x == self.x + dx,
            r.y == self.y + dy,
    {
        Location::new(self.x + dx, self.y + dy)
    }

    /// The neighbouring point one step in `direction`.
    pub fn move_towards(self, direction: Direction) -> (r: Location)
        requires
            i32::MIN <= self.x + spec_vector(direction).0 <= i32::MAX,
            i32::MIN <= self.y + spec_vector(direction).1 <= i32::MAX,
        ensures
            r.x == self.x + spec_vector(direction).0,
            r.y == self.y + spec_vector(direction).1,
    {
        let (dx, dy): (i32, i32) = direction.to_vector();
        Location { x: self.x + dx, y: self.y + dy }
    }
}

} // verus!
