//! The produced element definition: the document's shape tree scaled into
//! output units, with the canvas sized from its global bounds.
//!
//! The sizing deliberately over-pads so rendered content never touches the
//! canvas edge: the raw extent is rounded, padded up to the next multiple
//! of ten plus ten, and padded a further ten when the rounded extent's
//! last digit is large; the hotspot centers the leftover margin.

use vstd::prelude::*;
use crate::builder::{Description, SkipCounts, s_err_count, s_group_built, BuildError,
    MAX_BLOCK_DEPTH};
use crate::entity::Document;
use crate::meta::{ElemInfos, ElmtUuid, ItemType, LinkType, Names};
use crate::num::{csub, cround_units, rdiv, rdiv128, s_sub, SCALE};
use crate::objects::{s_objs_bot, s_objs_left, s_objs_right, s_objs_scaled, s_objs_top};
use crate::units::{s_unit_factor, scale_factor};

verus! {

/// Division truncating toward zero, for a positive divisor.
pub open spec fn s_tdiv(a: int, d: int) -> int
    recommends
        d > 0,
{
    if a >= 0 {
        a / d
    } else {
        -((-a) / d)
    }
}

/// Remainder of the truncating division.
pub open spec fn s_tmod(a: int, d: int) -> int
    recommends
        d > 0,
{
    a - d * s_tdiv(a, d)
}

/// A raw extent in micro-units: the clamped difference of two bounds.
pub open spec fn s_raw_dim(lo: int, hi: int) -> int {
    s_sub(hi, lo)
}

/// The raw extent rounded to whole output units.
pub open spec fn s_int_dim(raw: int) -> int {
    rdiv(raw, SCALE as int)
}

/// The rounded extent padded up to the next multiple of ten, plus ten.
pub open spec fn s_up_dim(raw: int) -> int {
    s_tdiv(s_int_dim(raw), 10) * 10 + 10
}

/// The whole-unit margin left between the raw extent and the padded one.
pub open spec fn s_margin(raw: int) -> int {
    rdiv(s_up_dim(raw) * (SCALE as int) - raw, SCALE as int)
}

/// The final canvas extent: a further ten when the rounded extent's last
/// digit exceeds six.
pub open spec fn s_canvas_dim(raw: int) -> int {
    if s_tmod(s_int_dim(raw), 10) > 6 {
        s_up_dim(raw) + 10
    } else {
        s_up_dim(raw)
    }
}

/// The hotspot coordinate: the low bound pushed left by half the margin,
/// rounded and negated.
pub open spec fn s_hotspot(lo: int, raw: int) -> int {
    -rdiv(lo - s_margin(raw) * ((SCALE as int) / 2), SCALE as int)
}

/// Truncating division by ten for a bounded value.
fn tdiv10(a: i64) -> (r: i64)
    requires
        -10_000_000_000_000 <= a <= 10_000_000_000_000,
    ensures
        r as int == s_tdiv(a as int, 10),
{
    if a >= 0 {
        ((a as u64) / 10) as i64
    } else {
        let m = ((-a) as u64) / 10;
        -(m as i64)
    }
}

/// Computes the canvas extent and hotspot for one axis from the scaled
/// tree's low and high bounds, exactly as `s_canvas_dim` and `s_hotspot`
/// state.
pub fn canvas_axis(lo: i64, hi: i64) -> (r: (i64, i64))
    ensures
        r.0 as int == s_canvas_dim(s_raw_dim(lo as int, hi as int)),
        r.1 as int == s_hotspot(lo as int, s_raw_dim(lo as int, hi as int)),
{
    let raw = csub(hi, lo);
    let idim = cround_units(raw);
    proof {
        assert(-2_000_000_000_000 <= idim as int <= 2_000_000_000_000) by (nonlinear_arith)
            requires
                idim as int == rdiv(raw as int, SCALE as int),
                -1_000_000_000_000_000_000 <= raw as int <= 1_000_000_000_000_000_000,
                SCALE == 1_000_000i64,
        ;
    }
    let q = tdiv10(idim);
    let up = q * 10 + 10;
    let diff = up * SCALE - raw;
    let margin = rdiv128(diff as i128, SCALE as i128) as i64;
    proof {
        assert(-3_000_000_000_000 <= margin as int <= 3_000_000_000_000) by (nonlinear_arith)
            requires
                margin as int == rdiv(diff as int, SCALE as int),
                -3_000_000_000_000_000_000 <= diff as int <= 3_000_000_000_000_000_000,
                SCALE == 1_000_000i64,
        ;
    }
    let md = idim - q * 10;
    let dim = if md > 6 {
        up + 10
    } else {
        up
    };
    let wide = lo as i128 - margin as i128 * 500_000;
    let hs = rdiv128(wide, SCALE as i128);
    proof {
        assert(-20_000_000_000_000 <= hs as int <= 20_000_000_000_000) by (nonlinear_arith)
            requires
                hs as int == rdiv(wide as int, SCALE as int),
                -11_000_000_000_000_000_000 <= wide as int <= 11_000_000_000_000_000_000,
                SCALE == 1_000_000i64,
        ;
    }
    (dim, -(hs as i64))
}

/// A finished element definition: canvas size and hotspot derived from the
/// scaled shape tree, plus the fixed metadata of the output format.
pub struct Definition {
    pub item_type: ItemType,
    pub width: i64,
    pub height: i64,
    pub hotspot_x: i64,
    pub hotspot_y: i64,
    pub version: String,
    pub link_type: LinkType,
    pub uuid: ElmtUuid,
    pub names: Names,
    pub element_infos: Option<ElemInfos>,
    pub informations: String,
    pub description: Description,
}

impl Definition {
    /// Converts a whole document: builds its shape tree, rescales it by
    /// the declared unit's factor, and sizes the canvas from the scaled
    /// bounds.  The identifier text is supplied by the caller.  Alongside
    /// the definition come the per-kind counts of skipped entities.
    pub fn new(name: String, uuid: String, spline_step: u32, doc: &Document) -> (r: (
        Definition,
        SkipCounts,
    ))
        ensures
            ({
                let objs = r.0.description.objects@;
                let lo_x = s_objs_left(objs, objs.len() as int);
                let hi_x = s_objs_right(objs, objs.len() as int);
                let lo_y = s_objs_top(objs, objs.len() as int);
                let hi_y = s_objs_bot(objs, objs.len() as int);
                &&& exists|objs0: Seq<crate::objects::Objects>|
                    {
                        &&& #[trigger] s_group_built(
                            doc.entities@,
                            spline_step as int,
                            SCALE as int,
                            SCALE as int,
                            0,
                            0,
                            doc.blocks@,
                            MAX_BLOCK_DEPTH as int,
                            objs0,
                        )
                        &&& s_objs_scaled(
                            objs0,
                            s_unit_factor(doc.units),
                            s_unit_factor(doc.units),
                            objs,
                        )
                    }
                &&& r.0.width as int == s_canvas_dim(s_raw_dim(lo_x, hi_x))
                &&& r.0.hotspot_x as int == s_hotspot(lo_x, s_raw_dim(lo_x, hi_x))
                &&& r.0.height as int == s_canvas_dim(s_raw_dim(lo_y, hi_y))
                &&& r.0.hotspot_y as int == s_hotspot(lo_y, s_raw_dim(lo_y, hi_y))
                &&& r.0.item_type == ItemType::Element
                &&& r.0.link_type == LinkType::Simple
                &&& r.0.version@ == "0.8.0"@
                &&& r.0.informations@ == "Created using dxf2elmt!"@
                &&& r.0.uuid.uuid == uuid
                &&& r.0.names.names@.len() == 1
                &&& r.0.names.names@[0].lang@ == "en"@
                &&& r.0.names.names@[0].value == name
                &&& r.0.element_infos is None
                &&& r.1.unsupported as int == s_err_count(
                    doc.entities@,
                    spline_step as int,
                    doc.blocks@,
                    MAX_BLOCK_DEPTH as int,
                    BuildError::UnsupportedEntity,
                )
                &&& r.1.degenerate as int == s_err_count(
                    doc.entities@,
                    spline_step as int,
                    doc.blocks@,
                    MAX_BLOCK_DEPTH as int,
                    BuildError::DegenerateGeometry,
                )
                &&& r.1.missing_block as int == s_err_count(
                    doc.entities@,
                    spline_step as int,
                    doc.blocks@,
                    MAX_BLOCK_DEPTH as int,
                    BuildError::MissingBlock,
                )
                &&& r.1.recursion as int == s_err_count(
                    doc.entities@,
                    spline_step as int,
                    doc.blocks@,
                    MAX_BLOCK_DEPTH as int,
                    BuildError::RecursionLimitExceeded,
                )
            }),
    {
        let factor = scale_factor(doc.units);
        let (mut description, counts) = Description::from_document(doc, spline_step);
        let ghost objs0 = description.objects@;
        description.scale(factor, factor);
        let lo_x = description.left_bound();
        let hi_x = description.right_bound();
        let lo_y = description.top_bound();
        let hi_y = description.bot_bound();
        let (width, hotspot_x) = canvas_axis(lo_x, hi_x);
        let (height, hotspot_y) = canvas_axis(lo_y, hi_y);
        let definition = Definition {
            item_type: ItemType::Element,
            width,
            height,
            hotspot_x,
            hotspot_y,
            version: String::from_str("0.8.0"),
            link_type: LinkType::Simple,
            uuid: ElmtUuid { uuid },
            names: Names::single_english(name),
            element_infos: None,
            informations: String::from_str("Created using dxf2elmt!"),
            description,
        };
        (definition, counts)
    }
}

} // verus!
