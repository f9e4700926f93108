//! Circular-arc shape, stored as its bounding box plus start and sweep
//! angles in micro-degrees.

use vstd::prelude::*;
use crate::num::{cadd, cmul, csub, s_add, s_mul_frac, s_sub, Factor};
use crate::style::StrokeWeight;

verus! {

/// An arc in output coordinates: the axis-aligned box of its full circle,
/// a start angle and a sweep angle (both counter-clockwise micro-degrees).
#[derive(Clone, Copy, Debug, PartialEq, Eq, Structural)]
pub struct Arc {
    pub x: i64,
    pub y: i64,
    pub width: i64,
    pub height: i64,
    pub start: i64,
    pub angle: i64,
    pub antialias: bool,
    pub style: StrokeWeight,
}

/// `b` is `a` with position and size multiplied by the factors; the angles
/// are unchanged.
pub open spec fn s_arc_scaled(a: Arc, fx: Factor, fy: Factor, b: Arc) -> bool {
    &&& b.x as int == s_mul_frac(a.x as int, fx.num as int, fx.den as int)
    &&& b.y as int == s_mul_frac(a.y as int, fy.num as int, fy.den as int)
    &&& b.width as int == s_mul_frac(a.width as int, fx.num as int, fx.den as int)
    &&& b.height as int == s_mul_frac(a.height as int, fy.num as int, fy.den as int)
    &&& b.start == a.start
    &&& b.angle == a.angle
    &&& b.antialias == a.antialias
    &&& b.style == a.style
}

/// `b` is `a` shifted by the offset: x moves with it, y against it.
pub open spec fn s_arc_offset(a: Arc, ox: int, oy: int, b: Arc) -> bool {
    &&& b.x as int == s_add(a.x as int, ox)
    &&& b.y as int == s_sub(a.y as int, oy)
    &&& b.width == a.width
    &&& b.height == a.height
    &&& b.start == a.start
    &&& b.angle == a.angle
    &&& b.antialias == a.antialias
    &&& b.style == a.style
}

impl Arc {
    /// Multiplies position and size by the factors; the angles are
    /// unchanged.
    pub fn scale(&mut self, fx: Factor, fy: Factor)
        requires
            fx.valid(),
            fy.valid(),
        ensures
            s_arc_scaled(*old(self), fx, fy, *final(self)),
    {
        self.x = cmul(self.x, fx);
        self.y = cmul(self.y, fy);
        self.width = cmul(self.width, fx);
        self.height = cmul(self.height, fy);
    }

    /// Shifts the box by an offset.
    pub fn offset(&mut self, ox: i64, oy: i64)
        ensures
            s_arc_offset(*old(self), ox as int, oy as int, *final(self)),
    {
        self.x = cadd(self.x, ox);
        self.y = csub(self.y, oy);
    }

    /// Smallest x of the bounding box.
    pub fn left_bound(&self) -> (r: i64)
        ensures
            r == self.x,
    {
        self.x
    }

    /// Largest x of the bounding box.
    pub fn right_bound(&self) -> (r: i64)
        ensures
            r as int == s_add(self.x as int, self.width as int),
    {
        cadd(self.x, self.width)
    }

    /// Smallest y of the bounding box.
    pub fn top_bound(&self) -> (r: i64)
        ensures
            r == self.y,
    {
        self.y
    }

    /// Largest y of the bounding box.
    pub fn bot_bound(&self) -> (r: i64)
        ensures
            r as int == s_add(self.y as int, self.height as int),
    {
        cadd(self.y, self.height)
    }
}

} // verus!
