//! Static text shape.

use vstd::prelude::*;
use crate::font::FontInfo;
use crate::num::{cadd, cmul, csub, s_add, s_mul_frac, s_sub, Factor, SCALE};

verus! {

/// A static text label in output coordinates.  The rotation is stored in
/// micro-degrees and the color as a 24-bit RGB value.
#[derive(Clone, Debug)]
pub struct Text {
    pub x: i64,
    pub y: i64,
    pub rotation: i64,
    pub value: Vec<char>,
    pub font: FontInfo,
    pub color: u32,
}

/// `b` is `a` with the anchor multiplied by the factors; the point size
/// follows the horizontal factor.
pub open spec fn s_text_scaled(a: Text, fx: Factor, fy: Factor, b: Text) -> bool {
    &&& b.x as int == s_mul_frac(a.x as int, fx.num as int, fx.den as int)
    &&& b.y as int == s_mul_frac(a.y as int, fy.num as int, fy.den as int)
    &&& b.font.point_size as int == s_mul_frac(
        a.font.point_size as int,
        fx.num as int,
        fx.den as int,
    )
    &&& b.rotation == a.rotation
    &&& b.value == a.value
    &&& b.font.family == a.font.family
    &&& b.font.pixel_size == a.font.pixel_size
    &&& b.font.style_hint == a.font.style_hint
    &&& b.font.weight == a.font.weight
    &&& b.font.style == a.font.style
    &&& b.font.underline == a.font.underline
    &&& b.font.strike_out == a.font.strike_out
    &&& b.font.fixed_pitch == a.font.fixed_pitch
    &&& b.font.style_name == a.font.style_name
    &&& b.color == a.color
}

/// `b` is `a` shifted by the offset: x moves with it, y against it.
pub open spec fn s_text_offset(a: Text, ox: int, oy: int, b: Text) -> bool {
    &&& b.x as int == s_add(a.x as int, ox)
    &&& b.y as int == s_sub(a.y as int, oy)
    &&& b.rotation == a.rotation
    &&& b.value == a.value
    &&& b.font == a.font
    &&& b.color == a.color
}

impl Text {
    /// Multiplies the anchor by the factors; the point size follows the
    /// horizontal factor.
    pub fn scale(&mut self, fx: Factor, fy: Factor)
        requires
            fx.valid(),
            fy.valid(),
        ensures
            s_text_scaled(*old(self), fx, fy, *final(self)),
    {
        self.x = cmul(self.x, fx);
        self.y = cmul(self.y, fy);
        self.font.point_size = cmul(self.font.point_size, fx);
    }

    /// Shifts the anchor by an offset: x moves with it, y against it.
    pub fn offset(&mut self, ox: i64, oy: i64)
        ensures
            s_text_offset(*old(self), ox as int, oy as int, *final(self)),
    {
        self.x = cadd(self.x, ox);
        self.y = csub(self.y, oy);
    }

    /// Smallest x: the anchor.
    pub fn left_bound(&self) -> (r: i64)
        ensures
            r == self.x,
    {
        self.x
    }

    /// Smallest y: the anchor.
    pub fn top_bound(&self) -> (r: i64)
        ensures
            r == self.y,
    {
        self.y
    }

    /// Largest x: text extent is unknown without font metrics, so one
    /// output unit stands in for it.
    pub fn right_bound(&self) -> (r: i64)
        ensures
            r == SCALE,
    {
        SCALE
    }

    /// Largest y: text extent is unknown without font metrics, so one
    /// output unit stands in for it.
    pub fn bot_bound(&self) -> (r: i64)
        ensures
            r == SCALE,
    {
        SCALE
    }
}

} // verus!
