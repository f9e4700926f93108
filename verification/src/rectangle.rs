//! Axis-aligned rectangle shape with (currently unscaled) corner radii.

use vstd::prelude::*;
use crate::num::{cadd, cmul, s_add, s_mul_frac, Factor};
use crate::style::StrokeWeight;

verus! {

/// A rectangle in output coordinates.  The corner radii stay zero until the
/// source format offers a way to detect rounded corners, and are therefore
/// left alone by `scale`.
#[derive(Clone, Copy, Debug, PartialEq, Eq, Structural)]
pub struct Rectangle {
    pub x: i64,
    pub y: i64,
    pub rx: i64,
    pub ry: i64,
    pub width: i64,
    pub height: i64,
    pub antialias: bool,
    pub style: StrokeWeight,
}

/// `b` is `a` with position and size multiplied by the factors; the corner
/// radii are unchanged.
pub open spec fn s_rectangle_scaled(a: Rectangle, fx: Factor, fy: Factor, b: Rectangle) -> bool {
    &&& b.x as int == s_mul_frac(a.x as int, fx.num as int, fx.den as int)
    &&& b.y as int == s_mul_frac(a.y as int, fy.num as int, fy.den as int)
    &&& b.width as int == s_mul_frac(a.width as int, fx.num as int, fx.den as int)
    &&& b.height as int == s_mul_frac(a.height as int, fy.num as int, fy.den as int)
    &&& b.rx == a.rx
    &&& b.ry == a.ry
    &&& b.antialias == a.antialias
    &&& b.style == a.style
}

impl Rectangle {
    /// Multiplies position and size by the factors; the corner radii are
    /// unchanged.
    pub fn scale(&mut self, fx: Factor, fy: Factor)
        requires
            fx.valid(),
            fy.valid(),
        ensures
            s_rectangle_scaled(*old(self), fx, fy, *final(self)),
    {
        self.x = cmul(self.x, fx);
        self.y = cmul(self.y, fy);
        self.width = cmul(self.width, fx);
        self.height = cmul(self.height, fy);
    }

    /// Smallest x of the rectangle.
    pub fn left_bound(&self) -> (r: i64)
        ensures
            r == self.x,
    {
        self.x
    }

    /// Largest x of the rectangle.
    pub fn right_bound(&self) -> (r: i64)
        ensures
            r as int == s_add(self.x as int, self.width as int),
    {
        cadd(self.x, self.width)
    }

    /// Smallest y of the rectangle.
    pub fn top_bound(&self) -> (r: i64)
        ensures
            r == self.y,
    {
        self.y
    }

    /// Largest y of the rectangle.
    pub fn bot_bound(&self) -> (r: i64)
        ensures
            r as int == s_add(self.y as int, self.height as int),
    {
        cadd(self.y, self.height)
    }
}

} // verus!
