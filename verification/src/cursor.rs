//! The player cursor: a location, optionally confined to a rectangle.

use vstd::prelude::*;
use crate::direction::{spec_vector, Direction};
use crate::location::Location;
use crate::rectangle::Rectangle;

verus! {

/// Why the cursor rejected new boundaries.
#[derive(Clone, Copy, Debug, PartialEq, Eq, Structural)]
pub enum CursorError {
    /// The cursor's current location lies outside the proposed boundaries.
    LocationIsOutOfBounds,
}

/// A movable location, optionally confined to a rectangle: while
/// boundaries are set, every move that would leave them is ignored.
#[derive(Debug)]
pub struct Cursor {
    boundaries: Option<Rectangle>,
    location: Location,
}

impl Cursor {
    /// The boundaries the cursor is confined to, if any.
    pub closed spec fn spec_boundaries(self) -> Option<Rectangle> {
        self.boundaries
    }

    /// Where the cursor stands.
    pub closed spec fn spec_location(self) -> Location {
        self.location
    }

    /// Where the cursor stands.
    pub fn location(&self) -> (r: Location)
        ensures
            r == self.spec_location(),
    {
        self.location
    }

    /// The boundaries the cursor is confined to, if any.
    pub fn boundaries(&self) -> (r: Option<Rectangle>)
        ensures
            r == self.spec_boundaries(),
    {
        self.boundaries
    }

    /// Confine the cursor to `bounds`, returning the boundaries replaced,
    /// or reject the call where the cursor's current location is outside
    /// `bounds`.
    pub fn set_boundaries(&mut self, bounds: Rectangle) -> (r: Result<
        Option<Rectangle>,
        CursorError,
    >)
        ensures
            if bounds.spec_contains(old(self).spec_location()) {
                &&& r == Ok::<Option<Rectangle>, CursorError>(old(self).spec_boundaries())
                &&& final(self).spec_boundaries() == Some(bounds)
                &&& final(self).spec_location() == old(self).spec_location()
            } else {
                &&& r == Err::<Option<Rectangle>, CursorError>(CursorError::LocationIsOutOfBounds)
                &&& *final(self) == *old(self)
            },
    {
        if bounds.contains(self.location) {
            let previous = self.boundaries;
            self.boundaries = Some(bounds);
            Ok(previous)
        } else {
            Err(CursorError::LocationIsOutOfBounds)
        }
    }

    /// Move the cursor one step in `direction`; while boundaries are set,
    /// a step that would leave them is ignored.
    pub fn move_towards(&mut self, direction: Direction)
        requires
            i32::MIN <= old(self).spec_location().x + spec_vector(direction).0 <= i32::MAX,
            i32::MIN <= old(self).spec_location().y + spec_vector(direction).1 <= i32::MAX,
        ensures
            final(self).spec_boundaries() == old(self).spec_boundaries(),
            ({
                let target = Location {
                    x: (old(self).spec_location().x + spec_vector(direction).0) as i32,
                    y: (old(self).spec_location().y + spec_vector(direction).1) as i32,
                };
                final(self).spec_location() == match old(self).spec_boundaries() {
                    Some(bounds) => if bounds.spec_contains(target) {
                        target
                    } else {
                        old(self).spec_location()
                    },
                    None => target,
                }
            }),
    {
        let new_location = self.location.move_towards(direction);
        let allowed = match self.boundaries {
            Some(bounds) => bounds.contains(new_location),
            None => true,
        };
        if allowed {
            self.location = new_location;
        }
    }
}

impl Default for Cursor {
    /// An unconfined cursor standing at the origin.
    fn default() -> (r: Cursor)
        ensures
            r.spec_boundaries() is None,
            r.spec_location() == (Location { x: 0, y: 0 }),
    {
        Cursor { boundaries: None, location: Location::origin() }
    }
}

} // verus!
