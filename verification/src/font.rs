//! Font description carried by text shapes, mirroring the comma-separated
//! font string of the output format, plus the text alignment enums.

use vstd::prelude::*;

verus! {

/// Default point size of a text shape (12 output units).
pub const POINT_SIZE_DEFAULT: i64 = 12_000_000;

/// Style-hint slot of the font description.
#[derive(Clone, Copy, Debug, PartialEq, Eq, Structural)]
pub enum FontStyleHint {
    Helvetica,
    Times,
    Courier,
    OldEnglish,
    System,
    AnyStyle,
    Cursive,
    Monospace,
    Fantasy,
}

/// The numeric code the output format uses for a style hint.
pub open spec fn s_hint_code(h: FontStyleHint) -> i32 {
    match h {
        FontStyleHint::Helvetica => 0,
        FontStyleHint::Times => 1,
        FontStyleHint::Courier => 2,
        FontStyleHint::OldEnglish => 3,
        FontStyleHint::System => 4,
        FontStyleHint::AnyStyle => 5,
        FontStyleHint::Cursive => 6,
        FontStyleHint::Monospace => 7,
        FontStyleHint::Fantasy => 8,
    }
}

impl FontStyleHint {
    /// Numeric code used in the serialized font string.
    pub fn code(&self) -> (r: i32)
        ensures
            r == s_hint_code(*self),
    {
        match self {
            FontStyleHint::Helvetica => 0,
            FontStyleHint::Times => 1,
            FontStyleHint::Courier => 2,
            FontStyleHint::OldEnglish => 3,
            FontStyleHint::System => 4,
            FontStyleHint::AnyStyle => 5,
            FontStyleHint::Cursive => 6,
            FontStyleHint::Monospace => 7,
            FontStyleHint::Fantasy => 8,
        }
    }
}

/// Slant slot of the font description.
#[derive(Clone, Copy, Debug, PartialEq, Eq, Structural)]
pub enum FontStyle {
    Normal,
    Italic,
    Oblique,
}

/// The numeric code the output format uses for a slant.
pub open spec fn s_style_code(s: FontStyle) -> i32 {
    match s {
        FontStyle::Normal => 0,
        FontStyle::Italic => 1,
        FontStyle::Oblique => 2,
    }
}

impl FontStyle {
    /// Numeric code used in the serialized font string.
    pub fn code(&self) -> (r: i32)
        ensures
            r == s_style_code(*self),
    {
        match self {
            FontStyle::Normal => 0,
            FontStyle::Italic => 1,
            FontStyle::Oblique => 2,
        }
    }
}

/// Everything the output format's font string records.  The point size is
/// held in micro-units so it can be scaled exactly.
#[derive(Clone, Debug)]
pub struct FontInfo {
    pub family: String,
    pub point_size: i64,
    pub pixel_size: i32,
    pub style_hint: FontStyleHint,
    pub weight: i32,
    pub style: FontStyle,
    pub underline: bool,
    pub strike_out: bool,
    pub fixed_pitch: bool,
    pub style_name: Option<String>,
}

impl FontInfo {
    /// Whether this is the stock font with every slot at its default.
    pub open spec fn is_default(self) -> bool {
        &&& self.family@ == "osifont"@
        &&& self.point_size == POINT_SIZE_DEFAULT
        &&& self.pixel_size == 0
        &&& self.style_hint == FontStyleHint::Helvetica
        &&& self.weight == 0
        &&& self.style == FontStyle::Normal
        &&& self.underline == false
        &&& self.strike_out == false
        &&& self.fixed_pitch == false
        &&& self.style_name is None
    }

    /// The stock font with a caller-chosen point size.
    pub fn with_point_size(point_size: i64) -> (r: FontInfo)
        ensures
            r.point_size == point_size,
            r.family@ == "osifont"@,
            r.pixel_size == 0,
            r.style_hint == FontStyleHint::Helvetica,
            r.weight == 0,
            r.style == FontStyle::Normal,
            !r.underline,
            !r.strike_out,
            !r.fixed_pitch,
            r.style_name is None,
    {
        FontInfo {
            family: String::from_str("osifont"),
            point_size,
            pixel_size: 0,
            style_hint: FontStyleHint::Helvetica,
            weight: 0,
            style: FontStyle::Normal,
            underline: false,
            strike_out: false,
            fixed_pitch: false,
            style_name: None,
        }
    }
}

impl Default for FontInfo {
    /// The stock font at the default point size.
    fn default() -> (r: FontInfo)
        ensures
            r.is_default(),
    {
        FontInfo::with_point_size(POINT_SIZE_DEFAULT)
    }
}

/// Horizontal text anchoring.
#[derive(Clone, Copy, Debug, PartialEq, Eq, Structural)]
pub enum HAlignment {
    Left,
    Center,
    Right,
}

/// Vertical text anchoring.
#[derive(Clone, Copy, Debug, PartialEq, Eq, Structural)]
pub enum VAlignment {
    Top,
    Center,
    Bottom,
}

/// Horizontal anchoring implied by a source attachment-point code
/// (columns of the 1..=9 grid); codes outside the grid anchor left.
pub open spec fn s_h_align(code: int) -> HAlignment {
    if code == 1 || code == 4 || code == 7 {
        HAlignment::Left
    } else if code == 2 || code == 5 || code == 8 {
        HAlignment::Center
    } else if code == 3 || code == 6 || code == 9 {
        HAlignment::Right
    } else {
        HAlignment::Left
    }
}

/// Vertical anchoring implied by a source attachment-point code
/// (rows of the 1..=9 grid); codes outside the grid anchor top.
pub open spec fn s_v_align(code: int) -> VAlignment {
    if 1 <= code <= 3 {
        VAlignment::Top
    } else if 4 <= code <= 6 {
        VAlignment::Center
    } else if 7 <= code <= 9 {
        VAlignment::Bottom
    } else {
        VAlignment::Top
    }
}

impl HAlignment {
    /// Maps a source attachment-point code to its column anchoring.
    pub fn from_attachment(code: i32) -> (r: HAlignment)
        ensures
            r == s_h_align(code as int),
    {
        if code == 1 || code == 4 || code == 7 {
            HAlignment::Left
        } else if code == 2 || code == 5 || code == 8 {
            HAlignment::Center
        } else if code == 3 || code == 6 || code == 9 {
            HAlignment::Right
        } else {
            HAlignment::Left
        }
    }
}

impl VAlignment {
    /// Maps a source attachment-point code to its row anchoring.
    pub fn from_attachment(code: i32) -> (r: VAlignment)
        ensures
            r == s_v_align(code as int),
    {
        if 1 <= code && code <= 3 {
            VAlignment::Top
        } else if 4 <= code && code <= 6 {
            VAlignment::Center
        } else if 7 <= code && code <= 9 {
            VAlignment::Bottom
        } else {
            VAlignment::Top
        }
    }
}

} // verus!
