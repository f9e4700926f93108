//! Dynamic text shape: the richer text variant the output format offers,
//! with alignment, font, color and framing attributes.

use vstd::prelude::*;
use crate::font::{FontInfo, HAlignment, VAlignment};
use crate::num::{cadd, cmul, csub, s_add, s_mul_frac, s_sub, Factor, SCALE};

verus! {

/// Where the displayed text comes from; only user-entered text is produced.
#[derive(Clone, Copy, Debug, PartialEq, Eq, Structural)]
pub enum TextFrom {
    UserText,
}

impl TextFrom {
    /// The word the output format spells this source with.
    pub fn as_text(&self) -> (r: &'static str)
        ensures
            r@ == "UserText"@,
    {
        "UserText"
    }
}

/// A dynamic text field in output coordinates.  Rotation is stored in
/// micro-degrees, the color as a 24-bit RGB value; the identifier attribute
/// is minted by the serializer, not stored here.
#[derive(Clone, Debug)]
pub struct DynamicText {
    pub text: Vec<char>,
    pub info_name: Option<String>,
    pub x: i64,
    pub y: i64,
    pub z: i64,
    pub rotation: i64,
    pub h_alignment: HAlignment,
    pub v_alignment: VAlignment,
    pub font: FontInfo,
    pub text_from: TextFrom,
    pub frame: bool,
    pub text_width: i64,
    pub keep_visual_rotation: bool,
    pub color: u32,
    pub attachment_point: i32,
    pub reference_rectangle_width: i64,
}

/// `b` is `a` with the anchor multiplied by the factors; the point size
/// follows the horizontal factor.
pub open spec fn s_dtext_scaled(a: DynamicText, fx: Factor, fy: Factor, b: DynamicText) -> bool {
    &&& b.x as int == s_mul_frac(a.x as int, fx.num as int, fx.den as int)
    &&& b.y as int == s_mul_frac(a.y as int, fy.num as int, fy.den as int)
    &&& b.font.point_size as int == s_mul_frac(
        a.font.point_size as int,
        fx.num as int,
        fx.den as int,
    )
    &&& b.text == a.text
    &&& b.info_name == a.info_name
    &&& b.z == a.z
    &&& b.rotation == a.rotation
    &&& b.h_alignment == a.h_alignment
    &&& b.v_alignment == a.v_alignment
    &&& b.font.family == a.font.family
    &&& b.font.pixel_size == a.font.pixel_size
    &&& b.font.style_hint == a.font.style_hint
    &&& b.font.weight == a.font.weight
    &&& b.font.style == a.font.style
    &&& b.font.underline == a.font.underline
    &&& b.font.strike_out == a.font.strike_out
    &&& b.font.fixed_pitch == a.font.fixed_pitch
    &&& b.font.style_name == a.font.style_name
    &&& b.text_from == a.text_from
    &&& b.frame == a.frame
    &&& b.text_width == a.text_width
    &&& b.keep_visual_rotation == a.keep_visual_rotation
    &&& b.color == a.color
    &&& b.attachment_point == a.attachment_point
    &&& b.reference_rectangle_width == a.reference_rectangle_width
}

/// `b` is `a` shifted by the offset: x moves with it, y against it.
pub open spec fn s_dtext_offset(a: DynamicText, ox: int, oy: int, b: DynamicText) -> bool {
    &&& b.x as int == s_add(a.x as int, ox)
    &&& b.y as int == s_sub(a.y as int, oy)
    &&& b.text == a.text
    &&& b.info_name == a.info_name
    &&& b.z == a.z
    &&& b.rotation == a.rotation
    &&& b.h_alignment == a.h_alignment
    &&& b.v_alignment == a.v_alignment
    &&& b.font == a.font
    &&& b.text_from == a.text_from
    &&& b.frame == a.frame
    &&& b.text_width == a.text_width
    &&& b.keep_visual_rotation == a.keep_visual_rotation
    &&& b.color == a.color
    &&& b.attachment_point == a.attachment_point
    &&& b.reference_rectangle_width == a.reference_rectangle_width
}

impl DynamicText {
    /// Multiplies the anchor by the factors; the point size follows the
    /// horizontal factor.
    pub fn scale(&mut self, fx: Factor, fy: Factor)
        requires
            fx.valid(),
            fy.valid(),
        ensures
            s_dtext_scaled(*old(self), fx, fy, *final(self)),
    {
        self.x = cmul(self.x, fx);
        self.y = cmul(self.y, fy);
        self.font.point_size = cmul(self.font.point_size, fx);
    }

    /// Shifts the anchor by an offset: x moves with it, y against it.
    pub fn offset(&mut self, ox: i64, oy: i64)
        ensures
            s_dtext_offset(*old(self), ox as int, oy as int, *final(self)),
    {
        self.x = cadd(self.x, ox);
        self.y = csub(self.y, oy);
    }

    /// Smallest x: the anchor.
    pub fn left_bound(&self) -> (r: i64)
        ensures
            r == self.x,
    {
        self.x
    }

    /// Smallest y: the anchor.
    pub fn top_bound(&self) -> (r: i64)
        ensures
            r == self.y,
    {
        self.y
    }

    /// Largest x: text extent is unknown without font metrics, so one
    /// output unit stands in for it.
    pub fn right_bound(&self) -> (r: i64)
        ensures
            r == SCALE,
    {
        SCALE
    }

    /// Largest y: text extent is unknown without font metrics, so one
    /// output unit stands in for it.
    pub fn bot_bound(&self) -> (r: i64)
        ensures
            r == SCALE,
    {
        SCALE
    }
}

} // verus!
