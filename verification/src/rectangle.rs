//! An axis-aligned rectangle in canonical min/max form, with inclusive
//! bounds and row-major iteration over its locations.

use vstd::prelude::*;
use vstd::arithmetic::div_mod::{
    lemma_fundamental_div_mod, lemma_fundamental_div_mod_converse,
};
use vstd::arithmetic::mul::lemma_mul_inequality;
use crate::location::Location;

verus! {

/// An axis-aligned region of the grid with inclusive bounds.
///
/// Construction by [`Rectangle::new`] is always canonical: whatever corner
/// pair it is given, `min_x <= max_x` and `min_y <= max_y` hold of the
/// result.  Because the fields are public, functions that measure or walk a
/// rectangle ask for [`Rectangle::is_valid`], which additionally bounds each
/// extent by `u16::MAX` so that widths, heights and cell indices fit their
/// machine types.
#[derive(Clone, Copy, Debug, PartialEq, Eq, Structural)]
pub struct Rectangle {
    pub min_x: i32,
    pub min_y: i32,
    pub max_x: i32,
    pub max_y: i32,
}

/// The canonical rectangle spanned by two corners.
pub open spec fn spec_new(a: Location, b: Location) -> Rectangle {
    Rectangle {
        min_x: if a.x <= b.x { a.x } else { b.x },
        min_y: if a.y <= b.y { a.y } else { b.y },
        max_x: if a.x <= b.x { b.x } else { a.x },
        max_y: if a.y <= b.y { b.y } else { a.y },
    }
}

impl Rectangle {
    /// Number of columns, as a mathematical integer.
    pub open spec fn spec_width(self) -> int {
        self.max_x - self.min_x + 1
    }

    /// Number of rows, as a mathematical integer.
    pub open spec fn spec_height(self) -> int {
        self.max_y - self.min_y + 1
    }

    /// Number of cells, as a mathematical integer.
    pub open spec fn spec_area(self) -> int {
        self.spec_width() * self.spec_height()
    }

    /// Canonical and of representable extent: both extents are at least one
    /// and fit in `u16`.
    pub open spec fn is_valid(self) -> bool {
        &&& self.min_x <= self.max_x
        &&& self.min_y <= self.max_y
        &&& self.spec_width() <= u16::MAX
        &&& self.spec_height() <= u16::MAX
    }

    /// Whether `loc` lies inside the rectangle.
    pub open spec fn spec_contains(self, loc: Location) -> bool {
        &&& self.min_x <= loc.x <= self.max_x
        &&& self.min_y <= loc.y <= self.max_y
    }

    /// The `i`-th location of the rectangle in row-major order: all columns
    /// of the lowest row first, then the next row, and so on.
    pub open spec fn location_at(self, i: int) -> Location {
        Location {
            x: (self.min_x + i % self.spec_width()) as i32,
            y: (self.min_y + i / self.spec_width()) as i32,
        }
    }

    /// The canonical rectangle spanned by corners `a` and `b`, in whichever
    /// order they are given.
    pub fn new(a: Location, b: Location) -> (r: Rectangle)
        ensures
            r == spec_new(a, b),
            r.min_x <= r.max_x,
            r.min_y <= r.max_y,
    {
        Rectangle {
            min_x: if a.x <= b.x { a.x } else { b.x },
            min_y: if a.y <= b.y { a.y } else { b.y },
            max_x: if a.x <= b.x { b.x } else { a.x },
            max_y: if a.y <= b.y { b.y } else { a.y },
        }
    }

    /// Number of columns.
    pub fn width(self) -> (r: u16)
        requires
            self.is_valid(),
        ensures
            r == self.spec_width(),
    {
        (self.max_x - self.min_x + 1) as u16
    }

    /// Number of rows.
    pub fn height(self) -> (r: u16)
        requires
            self.is_valid(),
        ensures
            r == self.spec_height(),
    {
        (self.max_y - self.min_y + 1) as u16
    }

    /// Number of cells: width times height.
    pub fn area(self) -> (r: u32)
        requires
            self.is_valid(),
        ensures
            r == self.spec_area(),
    {
        proof {
            lemma_mul_inequality(self.spec_width(), u16::MAX as int, self.spec_height());
            lemma_mul_inequality(self.spec_height(), u16::MAX as int, u16::MAX as int);
        }
        (self.width() as u32) * (self.height() as u32)
    }

    /// Whether `location` lies inside the rectangle.
    pub fn contains(self, location: Location) -> (r: bool)
        ensures
            r == self.spec_contains(location),
    {
        (self.min_x <= location.x && location.x <= self.max_x)
            && (self.min_y <= location.y && location.y <= self.max_y)
    }

    /// The overlap of two rectangles, or `None` where they share no cell.
    pub fn intersect(self, other: Rectangle) -> (r: Option<Rectangle>)
        ensures
            match r {
                Some(overlap) => {
                    &&& overlap.min_x == if self.min_x >= other.min_x { self.min_x } else { other.min_x }
                    &&& overlap.min_y == if self.min_y >= other.min_y { self.min_y } else { other.min_y }
                    &&& overlap.max_x == if self.max_x <= other.max_x { self.max_x } else { other.max_x }
                    &&& overlap.max_y == if self.max_y <= other.max_y { self.max_y } else { other.max_y }
                    &&& overlap.min_x <= overlap.max_x
                    &&& overlap.min_y <= overlap.max_y
                    &&& self.is_valid() && other.is_valid() ==> overlap.is_valid()
                    &&& forall|loc: Location|
                        overlap.spec_contains(loc) <==> self.spec_contains(loc)
                            && other.spec_contains(loc)
                },
                None => forall|loc: Location|
                    !(self.spec_contains(loc) && other.spec_contains(loc)),
            },
    {
        let min_x = if self.min_x >= other.min_x { self.min_x } else { other.min_x };
        let min_y = if self.min_y >= other.min_y { self.min_y } else { other.min_y };
        let max_x = if self.max_x <= other.max_x { self.max_x } else { other.max_x };
        let max_y = if self.max_y <= other.max_y { self.max_y } else { other.max_y };
        if min_x <= max_x && min_y <= max_y {
            Some(Rectangle { min_x, min_y, max_x, max_y })
        } else {
            None
        }
    }
}

/// The rectangle of the given extent centred on `center`.  The span
/// reaches `width / 2` below the centre but only `(width - 1) / 2` above
/// it, so for an even extent the extra unit is placed on the negative,
/// lower side; the vertical axis is treated the same way.
pub open spec fn spec_centered_around(center: Location, width: u16, height: u16) -> Rectangle {
    Rectangle {
        min_x: (center.x - width / 2) as i32,
        min_y: (center.y - height / 2) as i32,
        max_x: (center.x + (width - 1) / 2) as i32,
        max_y: (center.y + (height - 1) / 2) as i32,
    }
}

impl Rectangle {
    /// The cell at the middle of the rectangle: the inverse of centred
    /// construction, so for an even extent it sits just above the midpoint
    /// of the span, matching the extra unit on the negative side.
    pub open spec fn spec_center(self) -> Location {
        Location {
            x: (self.min_x + self.spec_width() / 2) as i32,
            y: (self.min_y + self.spec_height() / 2) as i32,
        }
    }

    /// The rectangle of extent `width` by `height` centred on `center`;
    /// for an even extent the extra unit is placed on the negative, lower
    /// side.
    ///
    /// Both extents must be non-zero, and the corners must stay inside the
    /// coordinate range.
    pub fn centered_around(center: Location, width: u16, height: u16) -> (r: Rectangle)
        requires
            width > 0,
            height > 0,
            i32::MIN <= center.x - width / 2,
            center.x + (width - 1) / 2 <= i32::MAX,
            i32::MIN <= center.y - height / 2,
            center.y + (height - 1) / 2 <= i32::MAX,
        ensures
            r == spec_centered_around(center, width, height),
            r.is_valid(),
            r.spec_width() == width,
            r.spec_height() == height,
            r.spec_contains(center),
            r.spec_center() == center,
    {
        proof {
            lemma_fundamental_div_mod(width as int, 2);
            lemma_fundamental_div_mod(width as int - 1, 2);
            lemma_fundamental_div_mod(height as int, 2);
            lemma_fundamental_div_mod(height as int - 1, 2);
        }
        let half_width: i32 = (width / 2) as i32;
        let half_height: i32 = (height / 2) as i32;
        let r = Rectangle {
            min_x: center.x - half_width,
            min_y: center.y - half_height,
            max_x: center.x + ((width - 1) / 2) as i32,
            max_y: center.y + ((height - 1) / 2) as i32,
        };
        proof {
            lemma_fundamental_div_mod(r.spec_width(), 2);
            lemma_fundamental_div_mod(r.spec_height(), 2);
        }
        r
    }

    /// The cell at the middle of the rectangle: the inverse of centred
    /// construction.
    pub fn center(self) -> (r: Location)
        requires
            self.is_valid(),
        ensures
            r == self.spec_center(),
            self.spec_contains(r),
    {
        proof {
            lemma_fundamental_div_mod(self.spec_width(), 2);
            lemma_fundamental_div_mod(self.spec_height(), 2);
        }
        let width: i32 = self.max_x - self.min_x + 1;
        let height: i32 = self.max_y - self.min_y + 1;
        Location { x: self.min_x + width / 2, y: self.min_y + height / 2 }
    }
}

/// Corner order does not matter: `new(a, b)` and `new(b, a)` build the same
/// rectangle.
pub proof fn lemma_new_is_canonical(a: Location, b: Location)
    ensures
        spec_new(a, b) == spec_new(b, a),
{
}

/// A cell index below `w * h` decomposes into a column below `w` and a row
/// below `h`.
proof fn lemma_div_bounds(i: int, w: int, h: int)
    requires
        w >= 1,
        h >= 1,
        0 <= i < w * h,
    ensures
        0 <= i % w < w,
        0 <= i / w < h,
{
    lemma_fundamental_div_mod(i, w);
    vstd::arithmetic::mul::lemma_mul_is_commutative(w, h);
    assert(0 <= i % w < w);
    if i / w >= h {
        lemma_mul_inequality(h, i / w, w);
        vstd::arithmetic::mul::lemma_mul_is_commutative(i / w, w);
        vstd::arithmetic::mul::lemma_mul_is_commutative(h, w);
        assert(false);
    }
    if i / w < 0 {
        lemma_mul_inequality(i / w, -1, w);
        vstd::arithmetic::mul::lemma_mul_is_commutative(i / w, w);
        assert(false);
    }
}

/// Row-major order yields pairwise distinct locations: two different cell
/// indices of a valid rectangle name two different locations.
pub proof fn lemma_locations_distinct(r: Rectangle, i: int, j: int)
    requires
        r.is_valid(),
        0 <= i < r.spec_area(),
        0 <= j < r.spec_area(),
        i != j,
    ensures
        r.location_at(i) != r.location_at(j),
{
    let w = r.spec_width();
    let h = r.spec_height();
    if r.location_at(i) == r.location_at(j) {
        lemma_fundamental_div_mod(i, w);
        lemma_fundamental_div_mod(j, w);
        lemma_div_bounds(i, w, h);
        lemma_div_bounds(j, w, h);
        assert(r.min_x + i % w <= r.max_x);
        assert(r.min_y + i / w <= r.max_y);
        assert(r.min_x + j % w <= r.max_x);
        assert(r.min_y + j / w <= r.max_y);
        assert(i % w == j % w);
        assert(i / w == j / w);
        assert(i == w * (i / w) + i % w);
        assert(j == w * (j / w) + j % w);
        assert(false);
    }
}

/// Every cell index of a valid rectangle names a contained location, and
/// every contained location is named by exactly one cell index: the one of
/// its row-major position.
pub proof fn lemma_locations_cover(r: Rectangle, loc: Location)
    requires
        r.is_valid(),
    ensures
        forall|i: int|
            0 <= i < r.spec_area() ==> r.spec_contains(#[trigger] r.location_at(i)),
        r.spec_contains(loc) ==> {
            let i = (loc.y - r.min_y) * r.spec_width() + (loc.x - r.min_x);
            &&& 0 <= i < r.spec_area()
            &&& r.location_at(i) == loc
        },
{
    let w = r.spec_width();
    let h = r.spec_height();
    assert forall|i: int| 0 <= i < r.spec_area() implies r.spec_contains(
        #[trigger] r.location_at(i),
    ) by {
        lemma_div_bounds(i, w, h);
    }
    if r.spec_contains(loc) {
        let row = loc.y - r.min_y;
        let col = loc.x - r.min_x;
        let i = row * w + col;
        lemma_fundamental_div_mod_converse(i, w, row, col);
        lemma_mul_inequality(row, h - 1, w);
        lemma_mul_inequality(0, row, w);
        vstd::arithmetic::mul::lemma_mul_is_distributive_sub_other_way(w, h, 1);
        vstd::arithmetic::mul::lemma_mul_is_commutative(w, h);
        assert(i < r.spec_area());
        assert(r.location_at(i) == loc);
    }
}

/// A row-major walk over the locations of a rectangle, restartable by
/// building a fresh one from the same rectangle.
pub struct RectangleIter {
    rect: Rectangle,
    idx: u32,
}

impl RectangleIter {
    /// The iterator still ranges over a valid rectangle and has not run
    /// past its last cell.
    pub closed spec fn wf(self) -> bool {
        &&& self.rect.is_valid()
        &&& 0 <= self.idx <= self.rect.spec_area()
    }

    /// The rectangle being walked.
    pub closed spec fn rect(self) -> Rectangle {
        self.rect
    }

    /// How many locations have been yielded so far.
    pub closed spec fn pos(self) -> int {
        self.idx as int
    }

    /// The next location in row-major order, or `None` once every cell of
    /// the rectangle has been yielded.
    pub fn next(&mut self) -> (r: Option<Location>)
        requires
            old(self).wf(),
        ensures
            final(self).wf(),
            final(self).rect() == old(self).rect(),
            if old(self).pos() < old(self).rect().spec_area() {
                &&& r == Some(old(self).rect().location_at(old(self).pos()))
                &&& final(self).pos() == old(self).pos() + 1
            } else {
                &&& r is None
                &&& final(self).pos() == old(self).pos()
            },
    {
        let area = self.rect.area();
        if self.idx == area {
            None
        } else {
            let width: u32 = self.rect.width() as u32;
            proof {
                lemma_div_bounds(
                    self.idx as int,
                    self.rect.spec_width(),
                    self.rect.spec_height(),
                );
            }
            let x: i32 = self.rect.min_x + (self.idx % width) as i32;
            let y: i32 = self.rect.min_y + (self.idx / width) as i32;
            self.idx = self.idx + 1;
            Some(Location { x, y })
        }
    }
}

impl Rectangle {
    /// A fresh row-major iterator over the locations of the rectangle.
    pub fn iter(self) -> (r: RectangleIter)
        requires
            self.is_valid(),
        ensures
            r.wf(),
            r.rect() == self,
            r.pos() == 0,
    {
        RectangleIter { rect: self, idx: 0 }
    }

    /// Every location of the rectangle in row-major order: the `i`-th
    /// element of the result is [`Rectangle::location_at`] `i`, so the list
    /// has exactly width times height entries, contains every location the
    /// rectangle contains, and repeats none.
    pub fn locations(self) -> (r: Vec<Location>)
        requires
            self.is_valid(),
        ensures
            r@.len() == self.spec_area(),
            forall|i: int| 0 <= i < r@.len() ==> r@[i] == self.location_at(i),
    {
        let mut r: Vec<Location> = Vec::new();
        let mut it = self.iter();
        loop
            invariant
                it.wf(),
                it.rect() == self,
                self.is_valid(),
                it.pos() == r@.len(),
                r@.len() <= self.spec_area(),
                forall|i: int| 0 <= i < r@.len() ==> r@[i] == self.location_at(i),
            ensures
                r@.len() == self.spec_area(),
                forall|i: int| 0 <= i < r@.len() ==> r@[i] == self.location_at(i),
            decreases self.spec_area() - it.pos(),
        {
            match it.next() {
                Some(loc) => r.push(loc),
                None => { break },
            }
        }
        r
    }
}

} // verus!
