//! Plane geometry in milli-units: vectors and axis-aligned rectangles.

use vstd::prelude::*;
use crate::num::MAX_COORD;

verus! {

/// A 2D vector or point, both components in milli-units.
#[derive(Clone, Copy, Debug, PartialEq, Eq, Structural)]
pub struct Vec2 {
    pub x: i64,
    pub y: i64,
}

impl Vec2 {
    /// Both components inside the stored coordinate range.
    pub open spec fn in_range(self) -> bool {
        -MAX_COORD <= self.x <= MAX_COORD && -MAX_COORD <= self.y <= MAX_COORD
    }

    pub fn new(x: i64, y: i64) -> (v: Vec2)
        ensures
            v == (Vec2 { x, y }),
    {
        Vec2 { x, y }
    }

    pub fn zero() -> (v: Vec2)
        ensures
            v == (Vec2 { x: 0, y: 0 }),
    {
        Vec2 { x: 0, y: 0 }
    }

    /// The unit factor one, on both axes.
    pub fn one_milli() -> (v: Vec2)
        ensures
            v == (Vec2 { x: 1000, y: 1000 }),
    {
        Vec2 { x: 1000, y: 1000 }
    }
}

/// An axis-aligned rectangle given by its two extreme corners.
#[derive(Clone, Copy, Debug, PartialEq, Eq, Structural)]
pub struct Rect {
    pub min: Vec2,
    pub max: Vec2,
}

impl Rect {
    /// Corners inside the stored range and properly ordered.
    pub open spec fn wf(self) -> bool {
        self.min.in_range() && self.max.in_range() && self.min.x <= self.max.x && self.min.y
            <= self.max.y
    }

    /// Width and height, in milli-units.
    pub open spec fn spec_size(self) -> (int, int) {
        (self.max.x - self.min.x, self.max.y - self.min.y)
    }

    /// Whether the rectangle contains the point, borders included.
    pub open spec fn spec_contains(self, p: Vec2) -> bool {
        self.min.x <= p.x <= self.max.x && self.min.y <= p.y <= self.max.y
    }

    /// The rectangle of the given size centred on `center`; an odd size
    /// loses its last milli-unit to truncation, split toward `min`.
    pub fn from_center_size(center: Vec2, size: Vec2) -> (r: Rect)
        requires
            center.in_range(),
            size.in_range(),
            0 <= size.x,
            0 <= size.y,
        ensures
            r.min.x == center.x - size.x / 2,
            r.min.y == center.y - size.y / 2,
            r.max.x == center.x - size.x / 2 + size.x,
            r.max.y == center.y - size.y / 2 + size.y,
    {
        let hx: i64 = ((size.x as u64) / 2) as i64;
        let hy: i64 = ((size.y as u64) / 2) as i64;
        Rect {
            min: Vec2 { x: center.x - hx, y: center.y - hy },
            max: Vec2 { x: center.x - hx + size.x, y: center.y - hy + size.y },
        }
    }

    /// See [`Rect::spec_contains`].
    pub fn contains(&self, p: Vec2) -> (r: bool)
        ensures
            r == self.spec_contains(p),
    {
        self.min.x <= p.x && p.x <= self.max.x && self.min.y <= p.y && p.y <= self.max.y
    }

    /// See [`Rect::spec_size`].
    pub fn size(&self) -> (s: Vec2)
        requires
            self.wf(),
        ensures
            (s.x as int, s.y as int) == self.spec_size(),
    {
        Vec2 { x: self.max.x - self.min.x, y: self.max.y - self.min.y }
    }
}

} // verus!
