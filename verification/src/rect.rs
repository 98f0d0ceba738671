//! Axis-aligned rectangles and the strict intersection predicate.

use vstd::prelude::*;
use crate::Coord;

verus! {

/// The larger of two integers.
pub open spec fn greater(a: int, b: int) -> int {
    if a >= b { a } else { b }
}

/// The smaller of two integers.
pub open spec fn lesser(a: int, b: int) -> int {
    if a <= b { a } else { b }
}

/// A rectangle given by its four edges, in pixel units.
///
/// Nothing forces `left <= right` or `top <= bottom`; [`Rect::normalize`]
/// builds a rectangle for which both hold.
#[derive(Debug, Clone, Copy, PartialEq, Eq, Structural)]
pub struct Rect {
    pub top: Coord,
    pub left: Coord,
    pub bottom: Coord,
    pub right: Coord,
}

impl Rect {
    /// Two rectangles intersect when their overlap has positive width and
    /// positive height.
    pub open spec fn intersects(self, other: Rect) -> bool {
        &&& greater(self.left as int, other.left as int) < lesser(self.right as int, other.right as int)
        &&& greater(self.top as int, other.top as int) < lesser(self.bottom as int, other.bottom as int)
    }

    /// The edges are sorted: `left <= right` and `top <= bottom`.
    pub open spec fn is_ordered(self) -> bool {
        self.left <= self.right && self.top <= self.bottom
    }

    /// The unit cell whose upper left corner is `(x, y)` lies inside the rectangle.
    pub open spec fn holds_cell(self, x: int, y: int) -> bool {
        self.left <= x < self.right && self.top <= y < self.bottom
    }

    /// The rectangle whose corners are the two given points, with sorted edges.
    pub open spec fn spanning(anchor: (Coord, Coord), release: (Coord, Coord)) -> Rect {
        Rect {
            top: lesser(anchor.1 as int, release.1 as int) as Coord,
            left: lesser(anchor.0 as int, release.0 as int) as Coord,
            bottom: greater(anchor.1 as int, release.1 as int) as Coord,
            right: greater(anchor.0 as int, release.0 as int) as Coord,
        }
    }

    /// Whether the two rectangles overlap in more than an edge or a corner.
    pub fn intersects_with(&self, other: &Rect) -> (hit: bool)
        ensures
            hit == self.intersects(*other),
    {
        let max_left: Coord = if self.left >= other.left { self.left } else { other.left };
        let min_right: Coord = if self.right <= other.right { self.right } else { other.right };
        let max_top: Coord = if self.top >= other.top { self.top } else { other.top };
        let min_bottom: Coord = if self.bottom <= other.bottom { self.bottom } else { other.bottom };

        max_left < min_right && max_top < min_bottom
    }

    /// Builds the rectangle between the point where a drag began and the
    /// point where it ended, whatever the direction of the drag.
    pub fn normalize(anchor: (Coord, Coord), release: (Coord, Coord)) -> (rect: Rect)
        ensures
            rect == Rect::spanning(anchor, release),
            rect.is_ordered(),
    {
        let (mut left, mut right): (Coord, Coord) = (anchor.0, release.0);
        let (mut top, mut bottom): (Coord, Coord) = (anchor.1, release.1);

        if left > right {
            let kept: Coord = left;
            left = right;
            right = kept;
        }
        if top > bottom {
            let kept: Coord = top;
            top = bottom;
            bottom = kept;
        }

        Rect { top, left, bottom, right }
    }
}

/// Intersection does not depend on the order of the two rectangles.
pub proof fn intersects_is_symmetric(a: Rect, b: Rect)
    ensures
        a.intersects(b) == b.intersects(a),
{
}

/// Rectangles that lie side by side or one above the other, sharing at most
/// an edge or a corner, do not intersect.
pub proof fn touching_rects_do_not_intersect(a: Rect, b: Rect)
    requires
        a.right <= b.left || b.right <= a.left || a.bottom <= b.top || b.bottom <= a.top,
    ensures
        !a.intersects(b),
        !b.intersects(a),
{
}

/// A rectangle without area intersects nothing, not even itself.
pub proof fn empty_rect_intersects_nothing(a: Rect, b: Rect)
    requires
        a.left >= a.right || a.top >= a.bottom,
    ensures
        !a.intersects(b),
        !b.intersects(a),
        !a.intersects(a),
{
}

/// Two rectangles intersect exactly when some unit cell lies inside both.
pub proof fn intersects_iff_shared_cell(a: Rect, b: Rect)
    ensures
        a.intersects(b) <==> exists|x: int, y: int| a.holds_cell(x, y) && b.holds_cell(x, y),
{
    if a.intersects(b) {
        let x = greater(a.left as int, b.left as int);
        let y = greater(a.top as int, b.top as int);
        assert(a.holds_cell(x, y) && b.holds_cell(x, y));
    }
}

/// The rectangle of a drag is the same in whichever direction it was drawn.
pub proof fn spanning_ignores_direction(p: (Coord, Coord), q: (Coord, Coord))
    ensures
        Rect::spanning(p, q) == Rect::spanning(q, p),
        Rect::spanning(p, q) == Rect::spanning((p.0, q.1), (q.0, p.1)),
        Rect::spanning(p, q).is_ordered(),
{
}

} // verus!
