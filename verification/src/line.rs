//! Straight line segment shape.

use vstd::prelude::*;
use crate::num::{
    cadd, cmax, cmin, cmul, csub, s_add, s_max, s_min, s_mul_frac, s_sub, Factor,
};
use crate::style::StrokeWeight;

verus! {

/// Length cap applied to the decorated line endings when scaling
/// (99 output units).
pub const END_LEN_LIMIT: i64 = 99_000_000;

/// Default length of a decorated line ending (1.5 output units).
pub const END_LEN_DEFAULT: i64 = 1_500_000;

/// Decoration drawn at the tip of a line.
#[derive(Clone, Copy, Debug, PartialEq, Eq, Structural)]
pub enum LineEnd {
    Plain,
    SimpleArrow,
}

/// A line segment in output coordinates (Y already flipped), with the
/// decorated-end bookkeeping the output format expects.
#[derive(Clone, Copy, Debug, PartialEq, Eq, Structural)]
pub struct Line {
    pub x1: i64,
    pub y1: i64,
    pub x2: i64,
    pub y2: i64,
    pub length1: i64,
    pub end1: LineEnd,
    pub length2: i64,
    pub end2: LineEnd,
    pub antialias: bool,
    pub style: StrokeWeight,
}

/// The end-decoration length after scaling: it follows the smaller of the
/// two factors and is capped at `END_LEN_LIMIT`.
pub open spec fn s_scaled_end_len(l: int, fx: Factor, fy: Factor) -> int {
    let f = fx.spec_min(fy);
    s_min(s_mul_frac(l, f.num as int, f.den as int), END_LEN_LIMIT as int)
}

/// `b` is `a` with endpoints multiplied by the factors and end-decoration
/// lengths following the smaller factor, capped.
pub open spec fn s_line_scaled(a: Line, fx: Factor, fy: Factor, b: Line) -> bool {
    &&& b.x1 as int == s_mul_frac(a.x1 as int, fx.num as int, fx.den as int)
    &&& b.x2 as int == s_mul_frac(a.x2 as int, fx.num as int, fx.den as int)
    &&& b.y1 as int == s_mul_frac(a.y1 as int, fy.num as int, fy.den as int)
    &&& b.y2 as int == s_mul_frac(a.y2 as int, fy.num as int, fy.den as int)
    &&& b.length1 as int == s_scaled_end_len(a.length1 as int, fx, fy)
    &&& b.length2 as int == s_scaled_end_len(a.length2 as int, fx, fy)
    &&& b.end1 == a.end1
    &&& b.end2 == a.end2
    &&& b.antialias == a.antialias
    &&& b.style == a.style
}

/// `b` is `a` shifted by the offset: x moves with it, y against it (the
/// source document's y axis points the other way).
pub open spec fn s_line_offset(a: Line, ox: int, oy: int, b: Line) -> bool {
    &&& b.x1 as int == s_add(a.x1 as int, ox)
    &&& b.x2 as int == s_add(a.x2 as int, ox)
    &&& b.y1 as int == s_sub(a.y1 as int, oy)
    &&& b.y2 as int == s_sub(a.y2 as int, oy)
    &&& b.length1 == a.length1
    &&& b.length2 == a.length2
    &&& b.end1 == a.end1
    &&& b.end2 == a.end2
    &&& b.antialias == a.antialias
    &&& b.style == a.style
}

impl Line {
    /// Multiplies the endpoints by the given factors; end-decoration lengths
    /// follow the smaller factor and are capped.
    pub fn scale(&mut self, fx: Factor, fy: Factor)
        requires
            fx.valid(),
            fy.valid(),
        ensures
            s_line_scaled(*old(self), fx, fy, *final(self)),
    {
        self.x1 = cmul(self.x1, fx);
        self.x2 = cmul(self.x2, fx);
        self.y1 = cmul(self.y1, fy);
        self.y2 = cmul(self.y2, fy);
        let f = fx.min(fy);
        self.length1 = cmin(cmul(self.length1, f), END_LEN_LIMIT);
        self.length2 = cmin(cmul(self.length2, f), END_LEN_LIMIT);
    }

    /// Shifts the segment by an offset.
    pub fn offset(&mut self, ox: i64, oy: i64)
        ensures
            s_line_offset(*old(self), ox as int, oy as int, *final(self)),
    {
        self.x1 = cadd(self.x1, ox);
        self.x2 = cadd(self.x2, ox);
        self.y1 = csub(self.y1, oy);
        self.y2 = csub(self.y2, oy);
    }

    /// Smallest x touched by the segment.
    pub fn left_bound(&self) -> (r: i64)
        ensures
            r as int == s_min(self.x1 as int, self.x2 as int),
    {
        cmin(self.x1, self.x2)
    }

    /// Largest x touched by the segment.
    pub fn right_bound(&self) -> (r: i64)
        ensures
            r as int == s_max(self.x1 as int, self.x2 as int),
    {
        cmax(self.x1, self.x2)
    }

    /// Smallest y touched by the segment.
    pub fn top_bound(&self) -> (r: i64)
        ensures
            r as int == s_min(self.y1 as int, self.y2 as int),
    {
        cmin(self.y1, self.y2)
    }

    /// Largest y touched by the segment.
    pub fn bot_bound(&self) -> (r: i64)
        ensures
            r as int == s_max(self.y1 as int, self.y2 as int),
    {
        cmax(self.y1, self.y2)
    }
}

} // verus!
