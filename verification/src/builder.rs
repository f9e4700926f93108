//! The entity builder: maps one source entity, under an accumulated
//! offset/scale context and a block table, to exactly one shape (or a
//! group of shapes), or to a typed error.
//!
//! All transform application is baked in before a shape is returned: the
//! entity's geometry is converted (Y flipped), scaled by the context
//! factors, then shifted by the context offset.  A block instance resolves
//! its block by name (first match wins when names collide), composes the
//! transform -- child offset is the parent offset plus the parent-scaled
//! difference of instance location and block base point, child scale the
//! product of parent and instance factors -- and builds the block's
//! entities recursively under a depth bound.  A polyline with three or
//! more vertices is first offered to the classifier: circularity is tried
//! first, then rectangularity, then the generic polygon; this order is
//! deliberate and fixed.

use vstd::prelude::*;
use crate::arc::Arc;
use crate::classify::{s_is_circular, s_is_rectangular, try_ellipse, try_rectangle};
use crate::dynamictext::{DynamicText, TextFrom};
use crate::ellipse::Ellipse;
use crate::entity::{
    AttribEnt, ArcEnt, Block, CircleEnt, EllipseEnt, Entity, InsertEnt, LeaderEnt, LineEnt,
    MTextEnt, SolidEnt, SplineEnt, TextEnt, s_find_block, find_block,
};
use crate::font::{FontInfo, HAlignment, VAlignment};
use crate::line::{Line, LineEnd, END_LEN_DEFAULT};
use crate::num::{
    cadd, cmul, cneg, cround_units, csub, clamped, rdiv, s_add, s_compose, s_mul_frac, s_sub,
    ccompose, Factor, SCALE,
};
use crate::objects::Objects;
use crate::polygon::{Coordinate, Point, Polygon};
use crate::rectangle::Rectangle;
use crate::style::{s_weight, weight_for, StrokeWeight, THICK_LIMIT_COARSE, THICK_LIMIT_FINE};

verus! {

/// Why one entity could not become a shape.  Every failure is local to the
/// offending entity; the caller counts it and continues.
#[derive(Clone, Copy, Debug, PartialEq, Eq, Structural)]
pub enum BuildError {
    /// The entity's kind is not implemented; skipped and counted.
    UnsupportedEntity,
    /// Too few points or an unevaluable curve; skipped per entity.
    DegenerateGeometry,
    /// A block instance names an unknown block; skipped.
    MissingBlock,
    /// A block reference chain exceeded the nesting bound; fatal for that
    /// instance only.
    RecursionLimitExceeded,
}

/// How deep block instances may nest before expansion gives up.
pub const MAX_BLOCK_DEPTH: u32 = 32;

/// Micro-degrees in a half turn.
pub const HALF_TURN: i64 = 180_000_000;

/// Degrees in a full turn.
pub const FULL_TURN_DEG: i64 = 360;

/// The translation part of a transform context, in micro-units of source
/// space.
#[derive(Clone, Copy, Debug, PartialEq, Eq, Structural, Default)]
pub struct Offset {
    pub x: i64,
    pub y: i64,
}

/// The scale part of a transform context: independent micro-fixed factors.
#[derive(Clone, Copy, Debug, PartialEq, Eq, Structural)]
pub struct ScaleFactor {
    pub x: i64,
    pub y: i64,
}

impl Default for ScaleFactor {
    /// The identity scale.
    fn default() -> (r: ScaleFactor)
        ensures
            r.x == SCALE,
            r.y == SCALE,
    {
        ScaleFactor { x: SCALE, y: SCALE }
    }
}

/// Scaling by a micro-fixed factor, then shifting: the x formula.
pub open spec fn s_place_x(v: int, sx: int, ox: int) -> int {
    s_add(s_mul_frac(v, sx, SCALE as int), ox)
}

/// Scaling by a micro-fixed factor, then shifting: the y formula (the
/// shift is subtracted; the value is already Y-flipped).
pub open spec fn s_place_y(v: int, sy: int, oy: int) -> int {
    s_sub(s_mul_frac(v, sy, SCALE as int), oy)
}

/// A size scaled by a micro-fixed factor (no shift).
pub open spec fn s_sized(v: int, f: int) -> int {
    s_mul_frac(v, f, SCALE as int)
}

/// The ellipse a circle entity becomes.
pub open spec fn s_circle_shape(c: CircleEnt, sx: int, sy: int, ox: int, oy: int) -> Ellipse {
    Ellipse {
        x: s_place_x(s_sub(c.cx as int, c.radius as int), sx, ox) as i64,
        y: s_place_y(s_sub(clamped(-(c.cy as int)), c.radius as int), sy, oy) as i64,
        width: s_sized(s_add(c.radius as int, c.radius as int), sx) as i64,
        height: s_sized(s_add(c.radius as int, c.radius as int), sy) as i64,
        antialias: false,
        style: s_weight(c.thickness as int, THICK_LIMIT_COARSE as int),
    }
}

/// Builds the ellipse for a circle entity under the context.
pub fn build_circle(c: &CircleEnt, sx: i64, sy: i64, ox: i64, oy: i64) -> (r: Ellipse)
    ensures
        r == s_circle_shape(*c, sx as int, sy as int, ox as int, oy as int),
{
    let fx = Factor::from_micro(sx);
    let fy = Factor::from_micro(sy);
    let diameter = cadd(c.radius, c.radius);
    let mut e = Ellipse {
        x: csub(c.cx, c.radius),
        y: csub(cneg(c.cy), c.radius),
        width: diameter,
        height: diameter,
        antialias: false,
        style: weight_for(c.thickness, THICK_LIMIT_COARSE),
    };
    e.scale(fx, fy);
    e.x = cadd(e.x, ox);
    e.y = csub(e.y, oy);
    e
}

/// The ellipse an ellipse entity becomes: the major extent is its x
/// component, the minor extent that times the axis ratio.
pub open spec fn s_ellipse_shape(e: EllipseEnt, sx: int, sy: int, ox: int, oy: int) -> Ellipse {
    let minor = s_mul_frac(e.major_x as int, e.minor_ratio as int, SCALE as int);
    Ellipse {
        x: s_place_x(s_sub(e.cx as int, e.major_x as int), sx, ox) as i64,
        y: s_place_y(s_sub(clamped(-(e.cy as int)), minor), sy, oy) as i64,
        width: s_sized(s_add(e.major_x as int, e.major_x as int), sx) as i64,
        height: s_sized(s_add(minor, minor), sy) as i64,
        antialias: false,
        style: s_weight(e.thickness as int, THICK_LIMIT_COARSE as int),
    }
}

/// Builds the ellipse for an ellipse entity under the context.
pub fn build_ellipse(e: &EllipseEnt, sx: i64, sy: i64, ox: i64, oy: i64) -> (r: Ellipse)
    ensures
        r == s_ellipse_shape(*e, sx as int, sy as int, ox as int, oy as int),
{
    let fx = Factor::from_micro(sx);
    let fy = Factor::from_micro(sy);
    let minor = cmul(e.major_x, Factor::from_micro(e.minor_ratio));
    let mut el = Ellipse {
        x: csub(e.cx, e.major_x),
        y: csub(cneg(e.cy), minor),
        width: cadd(e.major_x, e.major_x),
        height: cadd(minor, minor),
        antialias: false,
        style: weight_for(e.thickness, THICK_LIMIT_COARSE),
    };
    el.scale(fx, fy);
    el.x = cadd(el.x, ox);
    el.y = csub(el.y, oy);
    el
}

/// The sweep normalization of an arc: wraps through a full turn when the
/// start angle exceeds the end angle, then takes the magnitude.
pub open spec fn s_arc_sweep(start: int, end: int) -> int {
    let raw = if start > end {
        s_add(s_sub(FULL_TURN_DEG as int * SCALE as int, start), end)
    } else {
        s_sub(end, start)
    };
    if raw < 0 {
        clamped(-raw)
    } else {
        raw
    }
}

/// The arc shape an arc entity becomes.
pub open spec fn s_arc_shape(a: ArcEnt, sx: int, sy: int, ox: int, oy: int) -> Arc {
    Arc {
        x: s_place_x(s_sub(a.cx as int, a.radius as int), sx, ox) as i64,
        y: s_place_y(s_sub(clamped(-(a.cy as int)), a.radius as int), sy, oy) as i64,
        width: s_sized(s_add(a.radius as int, a.radius as int), sx) as i64,
        height: s_sized(s_add(a.radius as int, a.radius as int), sy) as i64,
        start: (if a.start_angle < 0 {
            clamped(-(a.start_angle as int))
        } else {
            a.start_angle as int
        }) as i64,
        angle: s_arc_sweep(a.start_angle as int, a.end_angle as int) as i64,
        antialias: false,
        style: s_weight(a.thickness as int, THICK_LIMIT_FINE as int),
    }
}

/// Builds the arc shape for an arc entity under the context.
pub fn build_arc(a: &ArcEnt, sx: i64, sy: i64, ox: i64, oy: i64) -> (r: Arc)
    ensures
        r == s_arc_shape(*a, sx as int, sy as int, ox as int, oy as int),
{
    let fx = Factor::from_micro(sx);
    let fy = Factor::from_micro(sy);
    let diameter = cadd(a.radius, a.radius);
    let full_turn = FULL_TURN_DEG * SCALE;
    let raw = if a.start_angle > a.end_angle {
        cadd(csub(full_turn, a.start_angle), a.end_angle)
    } else {
        csub(a.end_angle, a.start_angle)
    };
    let sweep = if raw < 0 {
        cneg(raw)
    } else {
        raw
    };
    let start = if a.start_angle < 0 {
        cneg(a.start_angle)
    } else {
        a.start_angle
    };
    let mut sh = Arc {
        x: csub(a.cx, a.radius),
        y: csub(cneg(a.cy), a.radius),
        width: diameter,
        height: diameter,
        start,
        angle: sweep,
        antialias: false,
        style: weight_for(a.thickness, THICK_LIMIT_FINE),
    };
    sh.scale(fx, fy);
    sh.x = cadd(sh.x, ox);
    sh.y = csub(sh.y, oy);
    sh
}

/// The line shape a line entity becomes.
pub open spec fn s_line_shape(l: LineEnt, sx: int, sy: int, ox: int, oy: int) -> Line {
    let fx = Factor { num: sx as i128, den: SCALE as i128 };
    let fy = Factor { num: sy as i128, den: SCALE as i128 };
    Line {
        x1: s_place_x(l.x1 as int, sx, ox) as i64,
        y1: s_place_y(clamped(-(l.y1 as int)), sy, oy) as i64,
        x2: s_place_x(l.x2 as int, sx, ox) as i64,
        y2: s_place_y(clamped(-(l.y2 as int)), sy, oy) as i64,
        length1: crate::line::s_scaled_end_len(END_LEN_DEFAULT as int, fx, fy) as i64,
        end1: LineEnd::Plain,
        length2: crate::line::s_scaled_end_len(END_LEN_DEFAULT as int, fx, fy) as i64,
        end2: LineEnd::Plain,
        antialias: false,
        style: s_weight(l.thickness as int, THICK_LIMIT_COARSE as int),
    }
}

/// Builds the line shape for a line entity under the context.
pub fn build_line(l: &LineEnt, sx: i64, sy: i64, ox: i64, oy: i64) -> (r: Line)
    ensures
        r == s_line_shape(*l, sx as int, sy as int, ox as int, oy as int),
{
    let fx = Factor::from_micro(sx);
    let fy = Factor::from_micro(sy);
    let mut ln = Line {
        x1: l.x1,
        y1: cneg(l.y1),
        x2: l.x2,
        y2: cneg(l.y2),
        length1: END_LEN_DEFAULT,
        end1: LineEnd::Plain,
        length2: END_LEN_DEFAULT,
        end2: LineEnd::Plain,
        antialias: false,
        style: weight_for(l.thickness, THICK_LIMIT_COARSE),
    };
    ln.scale(fx, fy);
    ln.offset(ox, oy);
    ln
}

/// The line shape a two-vertex polyline becomes (the stroke limit is the
/// fine one, as for every polyline-derived shape).
pub open spec fn s_pair_line_shape(
    a: Point,
    b: Point,
    thickness: int,
    sx: int,
    sy: int,
    ox: int,
    oy: int,
) -> Line {
    let fx = Factor { num: sx as i128, den: SCALE as i128 };
    let fy = Factor { num: sy as i128, den: SCALE as i128 };
    Line {
        x1: s_place_x(a.x as int, sx, ox) as i64,
        y1: s_place_y(clamped(-(a.y as int)), sy, oy) as i64,
        x2: s_place_x(b.x as int, sx, ox) as i64,
        y2: s_place_y(clamped(-(b.y as int)), sy, oy) as i64,
        length1: crate::line::s_scaled_end_len(END_LEN_DEFAULT as int, fx, fy) as i64,
        end1: LineEnd::Plain,
        length2: crate::line::s_scaled_end_len(END_LEN_DEFAULT as int, fx, fy) as i64,
        end2: LineEnd::Plain,
        antialias: false,
        style: s_weight(thickness, THICK_LIMIT_FINE as int),
    }
}

/// Builds the line shape for a two-vertex polyline under the context.
pub fn build_pair_line(a: Point, b: Point, thickness: i64, sx: i64, sy: i64, ox: i64, oy: i64) -> (
    r: Line)
    ensures
        r == s_pair_line_shape(a, b, thickness as int, sx as int, sy as int, ox as int, oy as int),
{
    let fx = Factor::from_micro(sx);
    let fy = Factor::from_micro(sy);
    let mut ln = Line {
        x1: a.x,
        y1: cneg(a.y),
        x2: b.x,
        y2: cneg(b.y),
        length1: END_LEN_DEFAULT,
        end1: LineEnd::Plain,
        length2: END_LEN_DEFAULT,
        end2: LineEnd::Plain,
        antialias: false,
        style: weight_for(thickness, THICK_LIMIT_FINE),
    };
    ln.scale(fx, fy);
    ln.offset(ox, oy);
    ln
}

/// Places an x coordinate: scale by the micro-fixed factor, shift right.
pub fn place_x(v: i64, sx: i64, ox: i64) -> (r: i64)
    ensures
        r as int == s_place_x(v as int, sx as int, ox as int),
{
    cadd(cmul(v, Factor::from_micro(sx)), ox)
}

/// Places a y coordinate (already flipped): scale, shift against.
pub fn place_y(v: i64, sy: i64, oy: i64) -> (r: i64)
    ensures
        r as int == s_place_y(v as int, sy as int, oy as int),
{
    csub(cmul(v, Factor::from_micro(sy)), oy)
}

/// `p` is the polygon the vertex list becomes: each source vertex flipped,
/// scaled and shifted, order kept.
pub open spec fn s_poly_from_verts(
    verts: Seq<Point>,
    closed: bool,
    style: StrokeWeight,
    sx: int,
    sy: int,
    ox: int,
    oy: int,
    p: Polygon,
) -> bool {
    &&& p.coordinates@.len() == verts.len()
    &&& forall|i: int|
        0 <= i < verts.len() ==> {
            &&& (#[trigger] p.coordinates@[i]).x as int == s_place_x(verts[i].x as int, sx, ox)
            &&& p.coordinates@[i].y as int == s_place_y(clamped(-(verts[i].y as int)), sy, oy)
        }
    &&& p.closed == closed
    &&& p.antialias == false
    &&& p.style == style
}

/// Builds the generic polygon for a vertex list under the context.
pub fn build_poly_from_verts(
    verts: &Vec<Point>,
    closed: bool,
    style: StrokeWeight,
    sx: i64,
    sy: i64,
    ox: i64,
    oy: i64,
) -> (r: Polygon)
    ensures
        s_poly_from_verts(verts@, closed, style, sx as int, sy as int, ox as int, oy as int, r),
{
    let n = verts.len();
    let mut coordinates: Vec<Coordinate> = Vec::new();
    let mut i: usize = 0;
    while i < n
        invariant
            n == verts@.len(),
            0 <= i <= n,
            coordinates@.len() == i,
            forall|j: int|
                0 <= j < i ==> {
                    &&& (#[trigger] coordinates@[j]).x as int == s_place_x(
                        verts@[j].x as int,
                        sx as int,
                        ox as int,
                    )
                    &&& coordinates@[j].y as int == s_place_y(
                        clamped(-(verts@[j].y as int)),
                        sy as int,
                        oy as int,
                    )
                },
        decreases n - i,
    {
        let v = verts[i];
        coordinates.push(
            Coordinate { x: place_x(v.x, sx, ox), y: place_y(cneg(v.y), sy, oy) },
        );
        i += 1;
    }
    Polygon { coordinates, closed, antialias: false, style }
}

/// `p` is the four-corner polygon a solid entity becomes; it is always
/// closed.
pub open spec fn s_solid_poly(s: SolidEnt, sx: int, sy: int, ox: int, oy: int, p: Polygon) -> bool {
    &&& p.coordinates@.len() == 4
    &&& p.coordinates@[0].x as int == s_place_x(s.p1.x as int, sx, ox)
    &&& p.coordinates@[0].y as int == s_place_y(clamped(-(s.p1.y as int)), sy, oy)
    &&& p.coordinates@[1].x as int == s_place_x(s.p2.x as int, sx, ox)
    &&& p.coordinates@[1].y as int == s_place_y(clamped(-(s.p2.y as int)), sy, oy)
    &&& p.coordinates@[2].x as int == s_place_x(s.p3.x as int, sx, ox)
    &&& p.coordinates@[2].y as int == s_place_y(clamped(-(s.p3.y as int)), sy, oy)
    &&& p.coordinates@[3].x as int == s_place_x(s.p4.x as int, sx, ox)
    &&& p.coordinates@[3].y as int == s_place_y(clamped(-(s.p4.y as int)), sy, oy)
    &&& p.closed == true
    &&& p.antialias == false
    &&& p.style == s_weight(s.thickness as int, THICK_LIMIT_COARSE as int)
}

/// Builds the closed four-corner polygon for a solid entity.
pub fn build_solid(s: &SolidEnt, sx: i64, sy: i64, ox: i64, oy: i64) -> (r: Polygon)
    ensures
        s_solid_poly(*s, sx as int, sy as int, ox as int, oy as int, r),
{
    let mut coordinates: Vec<Coordinate> = Vec::new();
    coordinates.push(Coordinate { x: place_x(s.p1.x, sx, ox), y: place_y(cneg(s.p1.y), sy, oy) });
    coordinates.push(Coordinate { x: place_x(s.p2.x, sx, ox), y: place_y(cneg(s.p2.y), sy, oy) });
    coordinates.push(Coordinate { x: place_x(s.p3.x, sx, ox), y: place_y(cneg(s.p3.y), sy, oy) });
    coordinates.push(Coordinate { x: place_x(s.p4.x, sx, ox), y: place_y(cneg(s.p4.y), sy, oy) });
    Polygon {
        coordinates,
        closed: true,
        antialias: false,
        style: weight_for(s.thickness, THICK_LIMIT_COARSE),
    }
}

/// `p` is the polyline approximation a spline entity becomes: the
/// tessellated points flipped, scaled and shifted; always thin.
pub open spec fn s_spline_poly(sp: SplineEnt, ss: int, sx: int, sy: int, ox: int, oy: int, p:
    Polygon) -> bool {
    let cnt = crate::tessellate::s_tess_count(
        crate::tessellate::s_domain_end(sp.knots@, sp.degree as int)
            - crate::tessellate::s_domain_start(sp.knots@, sp.degree as int),
        ss,
    );
    &&& p.coordinates@.len() == cnt
    &&& forall|i: int|
        0 <= i < cnt ==> {
            let tp = crate::tessellate::s_tess_point(
                sp.control_points@,
                sp.knots@,
                sp.degree as int,
                ss,
                i,
            );
            &&& (#[trigger] p.coordinates@[i]).x as int == s_add(s_mul_frac(tp.0, sx, SCALE as int), ox)
            &&& p.coordinates@[i].y as int == s_sub(
                s_mul_frac(clamped(-tp.1), sy, SCALE as int),
                oy,
            )
        }
    &&& p.closed == sp.closed
    &&& p.antialias == false
    &&& p.style == StrokeWeight::Thin
}

/// Tessellates a spline entity and builds its polygon; `None` when the
/// curve is degenerate.
pub fn build_spline(sp: &SplineEnt, ss: u32, sx: i64, sy: i64, ox: i64, oy: i64) -> (r: Option<
    Polygon>)
    ensures
        r is Some <==> crate::tessellate::s_tess_ok(
            sp.degree as int,
            sp.control_points@,
            sp.knots@,
            ss as int,
        ),
        r matches Some(p) ==> s_spline_poly(*sp, ss as int, sx as int, sy as int, ox as int, oy as int, p),
{
    let pts = crate::tessellate::tessellate(sp.degree, &sp.control_points, &sp.knots, ss);
    match pts {
        None => None,
        Some(ts) => {
            let n = ts.len();
            let mut coordinates: Vec<Coordinate> = Vec::new();
            let mut i: usize = 0;
            while i < n
                invariant
                    n == ts@.len(),
                    0 <= i <= n,
                    coordinates@.len() == i,
                    forall|j: int|
                        #![trigger ts@[j]]
                        0 <= j < n ==> {
                            let tp = crate::tessellate::s_tess_point(
                                sp.control_points@,
                                sp.knots@,
                                sp.degree as int,
                                ss as int,
                                j,
                            );
                            ts@[j].x as int == tp.0 && ts@[j].y as int == tp.1
                        },
                    forall|j: int|
                        0 <= j < i ==> {
                            let tp = crate::tessellate::s_tess_point(
                                sp.control_points@,
                                sp.knots@,
                                sp.degree as int,
                                ss as int,
                                j,
                            );
                            &&& (#[trigger] coordinates@[j]).x as int == s_add(
                                s_mul_frac(tp.0, sx as int, SCALE as int),
                                ox as int,
                            )
                            &&& coordinates@[j].y as int == s_sub(
                                s_mul_frac(clamped(-tp.1), sy as int, SCALE as int),
                                oy as int,
                            )
                        },
                decreases n - i,
            {
                let v = ts[i];
                coordinates.push(
                    Coordinate { x: place_x(v.x, sx, ox), y: place_y(cneg(v.y), sy, oy) },
                );
                i += 1;
            }
            Some(Polygon { coordinates, closed: sp.closed, antialias: false, style: StrokeWeight::Thin })
        },
    }
}

/// The placed ellipse a circular polyline promotes to.
pub open spec fn s_circular_shape(ps: Seq<Point>, sx: int, sy: int, ox: int, oy: int) -> Ellipse {
    let n = ps.len() as int;
    Ellipse {
        x: s_place_x(clamped(crate::classify::s_pt_min_x(ps, n)), sx, ox) as i64,
        y: s_place_y(clamped(-crate::classify::s_pt_max_y(ps, n)), sy, oy) as i64,
        width: s_sized(s_sub(crate::classify::s_pt_max_x(ps, n), crate::classify::s_pt_min_x(ps, n)), sx) as i64,
        height: s_sized(s_sub(crate::classify::s_pt_max_y(ps, n), crate::classify::s_pt_min_y(ps, n)), sy) as i64,
        antialias: false,
        style: StrokeWeight::Thin,
    }
}

/// The placed rectangle a rectilinear polyline promotes to.
pub open spec fn s_rectangular_shape(ps: Seq<Point>, sx: int, sy: int, ox: int, oy: int) -> Rectangle {
    let n = ps.len() as int;
    Rectangle {
        x: s_place_x(clamped(crate::classify::s_pt_min_x(ps, n)), sx, ox) as i64,
        y: s_place_y(clamped(-crate::classify::s_pt_max_y(ps, n)), sy, oy) as i64,
        rx: 0,
        ry: 0,
        width: s_sized(s_sub(crate::classify::s_pt_max_x(ps, n), crate::classify::s_pt_min_x(ps, n)), sx) as i64,
        height: s_sized(s_sub(crate::classify::s_pt_max_y(ps, n), crate::classify::s_pt_min_y(ps, n)), sy) as i64,
        antialias: false,
        style: StrokeWeight::Thin,
    }
}

/// Offers a vertex ring to the classifier and places whichever canonical
/// shape it reports, circularity first.
pub fn classify_and_place(verts: &Vec<Point>, sx: i64, sy: i64, ox: i64, oy: i64) -> (r: Option<
    Objects>)
    ensures
        r is Some <==> (s_is_circular(verts@) || s_is_rectangular(verts@)),
        s_is_circular(verts@) ==> r == Some(
            Objects::Ellipse(s_circular_shape(verts@, sx as int, sy as int, ox as int, oy as int)),
        ),
        !s_is_circular(verts@) && s_is_rectangular(verts@) ==> r == Some(
            Objects::Rectangle(
                s_rectangular_shape(verts@, sx as int, sy as int, ox as int, oy as int),
            ),
        ),
{
    let fx = Factor::from_micro(sx);
    let fy = Factor::from_micro(sy);
    if let Some(mut el) = try_ellipse(verts) {
        el.scale(fx, fy);
        el.x = cadd(el.x, ox);
        el.y = csub(el.y, oy);
        Some(Objects::Ellipse(el))
    } else if let Some(mut rc) = try_rectangle(verts) {
        rc.scale(fx, fy);
        rc.x = cadd(rc.x, ox);
        rc.y = csub(rc.y, oy);
        Some(Objects::Rectangle(rc))
    } else {
        None
    }
}

/// Default attachment-point code when the source entity has none
/// (bottom right of the 1..=9 grid).
pub const ATTACH_DEFAULT: i32 = 9;

/// The displayed-text width left for the consuming editor to compute.
pub const TEXT_WIDTH_AUTO: i64 = -1;

/// The rotation a text shape stores: zero when the source rotation rounds
/// to a whole number of turns, else the source rotation less a half turn.
pub open spec fn s_rot_norm(rot: int) -> int {
    let a = if rot < 0 {
        clamped(-rot)
    } else {
        rot
    };
    if rdiv(a, SCALE as int) % (FULL_TURN_DEG as int) != 0 {
        s_sub(rot, HALF_TURN as int)
    } else {
        0
    }
}

/// Normalizes a rotation for a text shape.
pub fn rot_norm(rot: i64) -> (r: i64)
    ensures
        r as int == s_rot_norm(rot as int),
{
    let a = if rot < 0 {
        cneg(rot)
    } else {
        rot
    };
    let deg = cround_units(a);
    proof {
        assert(deg >= 0) by {
            assert(rdiv(a as int, SCALE as int) >= 0) by (nonlinear_arith)
                requires
                    a as int >= 0,
                    SCALE as int == 1_000_000,
            ;
        }
    }
    if (deg as u64) % (FULL_TURN_DEG as u64) != 0 {
        csub(rot, HALF_TURN)
    } else {
        0
    }
}

/// The text with the source format's line-break escapes (a backslash
/// followed by a capital P) replaced by newlines.
pub open spec fn s_unescape(s: Seq<char>) -> Seq<char>
    decreases s.len(),
{
    if s.len() == 0 {
        Seq::empty()
    } else if s.len() >= 2 && s[0] == '\\' && s[1] == 'P' {
        seq!['\n'].add(s_unescape(s.skip(2)))
    } else {
        seq![s[0]].add(s_unescape(s.skip(1)))
    }
}

/// Replaces the source format's line-break escapes by newlines.
pub fn unescape(s: &Vec<char>) -> (r: Vec<char>)
    ensures
        r@ == s_unescape(s@),
{
    let n = s.len();
    let mut out: Vec<char> = Vec::new();
    let mut i: usize = 0;
    proof {
        assert(s@.skip(0) =~= s@);
        assert(Seq::<char>::empty().add(s_unescape(s@)) =~= s_unescape(s@));
    }
    while i < n
        invariant
            n == s@.len(),
            0 <= i <= n,
            s_unescape(s@) == out@.add(s_unescape(s@.skip(i as int))),
        decreases n - i,
    {
        if i + 1 < n && s[i] == '\\' && s[i + 1] == 'P' {
            proof {
                let rest = s@.skip(i as int);
                assert(rest.len() >= 2);
                assert(rest[0] == s@[i as int]);
                assert(rest[1] == s@[i as int + 1]);
                assert(rest.skip(2) =~= s@.skip(i as int + 2));
                assert(s_unescape(rest) == seq!['\n'].add(s_unescape(s@.skip(i as int + 2))));
                assert(out@.push('\n') =~= out@.add(seq!['\n']));
                assert(out@.add(seq!['\n']).add(s_unescape(s@.skip(i as int + 2))) =~= out@.add(
                    seq!['\n'].add(s_unescape(s@.skip(i as int + 2)))));
            }
            out.push('\n');
            i += 2;
        } else {
            proof {
                let rest = s@.skip(i as int);
                assert(rest.len() >= 1);
                assert(rest[0] == s@[i as int]);
                assert(rest.skip(1) =~= s@.skip(i as int + 1));
                assert(s_unescape(rest) == seq![s@[i as int]].add(
                    s_unescape(s@.skip(i as int + 1))));
                assert(out@.push(s@[i as int]) =~= out@.add(seq![s@[i as int]]));
                assert(out@.add(seq![s@[i as int]]).add(s_unescape(s@.skip(i as int + 1))) =~= out@
                    .add(seq![s@[i as int]].add(s_unescape(s@.skip(i as int + 1)))));
            }
            let c = s[i];
            out.push(c);
            i += 1;
        }
    }
    proof {
        assert(s@.skip(n as int) =~= Seq::<char>::empty());
        assert(out@.add(Seq::<char>::empty()) =~= out@);
    }
    out
}

/// The text entity a dynamic text is being built from.
pub enum TextEntity<'a> {
    Text(&'a TextEnt),
    MText(&'a MTextEnt),
    Attrib(&'a AttribEnt),
}

/// Step-by-step builder for a dynamic text shape.
pub struct DTextBuilder<'a> {
    pub text: TextEntity<'a>,
    pub attach_point: i32,
    pub color: Option<u32>,
}

/// `dt` is the untransformed dynamic text built from source fields: the
/// anchor Y-flipped, the rotation normalized, the stock font at the source
/// text height, and the bookkeeping attributes at their fixed defaults.
pub open spec fn s_dtext_fields(
    x: int,
    y: int,
    z: int,
    rotation: int,
    height: int,
    value: Seq<char>,
    color: Option<u32>,
    attach: int,
    ref_width: int,
    dt: DynamicText,
) -> bool {
    &&& dt.x as int == x
    &&& dt.y as int == clamped(-y)
    &&& dt.z as int == z
    &&& dt.rotation as int == s_rot_norm(rotation)
    &&& dt.text@ == value
    &&& dt.info_name is None
    &&& dt.h_alignment == HAlignment::Left
    &&& dt.v_alignment == VAlignment::Top
    &&& dt.font.point_size as int == height
    &&& dt.font.family@ == "osifont"@
    &&& dt.font.pixel_size == 0
    &&& dt.font.style_hint == crate::font::FontStyleHint::Helvetica
    &&& dt.font.weight == 0
    &&& dt.font.style == crate::font::FontStyle::Normal
    &&& dt.font.underline == false
    &&& dt.font.strike_out == false
    &&& dt.font.fixed_pitch == false
    &&& dt.font.style_name is None
    &&& dt.text_from == TextFrom::UserText
    &&& dt.frame == false
    &&& dt.text_width == TEXT_WIDTH_AUTO
    &&& dt.keep_visual_rotation == false
    &&& dt.color == (match color {
        Some(c) => c,
        None => 0u32,
    })
    &&& dt.attachment_point as int == attach
    &&& dt.reference_rectangle_width as int == ref_width
}

/// What `build` produces for each source kind.
pub open spec fn s_dtext_built(src: TextEntity, color: Option<u32>, dt: DynamicText) -> bool {
    match src {
        TextEntity::Text(t) => s_dtext_fields(
            t.x as int,
            t.y as int,
            t.z as int,
            t.rotation as int,
            t.height as int,
            t.value@,
            color,
            ATTACH_DEFAULT as int,
            0,
            dt,
        ),
        TextEntity::MText(m) => s_dtext_fields(
            m.x as int,
            m.y as int,
            m.z as int,
            m.rotation as int,
            m.height as int,
            s_unescape(m.text@),
            color,
            m.attachment_point as int,
            m.reference_rectangle_width as int,
            dt,
        ),
        TextEntity::Attrib(a) => s_dtext_fields(
            a.x as int,
            a.y as int,
            a.z as int,
            a.rotation as int,
            a.height as int,
            a.value@,
            color,
            ATTACH_DEFAULT as int,
            0,
            dt,
        ),
    }
}

impl<'a> DTextBuilder<'a> {
    /// Starts from a single-line text entity.
    pub fn from_text(text: &'a TextEnt) -> (r: Self)
        ensures
            r.text matches TextEntity::Text(t) && *t == *text,
            r.color is None,
            r.attach_point == ATTACH_DEFAULT,
    {
        Self { text: TextEntity::Text(text), color: None, attach_point: ATTACH_DEFAULT }
    }

    /// Starts from a multi-line text entity.
    pub fn from_mtext(text: &'a MTextEnt) -> (r: Self)
        ensures
            r.text matches TextEntity::MText(t) && *t == *text,
            r.color is None,
            r.attach_point == ATTACH_DEFAULT,
    {
        Self { text: TextEntity::MText(text), color: None, attach_point: ATTACH_DEFAULT }
    }

    /// Starts from an attribute-definition entity.
    pub fn from_attrib(text: &'a AttribEnt) -> (r: Self)
        ensures
            r.text matches TextEntity::Attrib(t) && *t == *text,
            r.color is None,
            r.attach_point == ATTACH_DEFAULT,
    {
        Self { text: TextEntity::Attrib(text), color: None, attach_point: ATTACH_DEFAULT }
    }

    /// Chooses the text color.
    pub fn color(self, color: u32) -> (r: Self)
        ensures
            r.color == Some(color),
            r.text == self.text,
            r.attach_point == self.attach_point,
    {
        Self { color: Some(color), ..self }
    }

    /// Finishes the dynamic text, still untransformed.
    pub fn build(self) -> (r: DynamicText)
        ensures
            s_dtext_built(self.text, self.color, r),
    {
        let (x, y, z, rotation, height, value, attach, ref_width): (
            i64,
            i64,
            i64,
            i64,
            i64,
            Vec<char>,
            i32,
            i64,
        ) = match self.text {
            TextEntity::Text(t) => (
                t.x,
                t.y,
                t.z,
                t.rotation,
                t.height,
                t.value.clone(),
                ATTACH_DEFAULT,
                0,
            ),
            TextEntity::MText(m) => (
                m.x,
                m.y,
                m.z,
                m.rotation,
                m.height,
                unescape(&m.text),
                m.attachment_point,
                m.reference_rectangle_width,
            ),
            TextEntity::Attrib(a) => (
                a.x,
                a.y,
                a.z,
                a.rotation,
                a.height,
                a.value.clone(),
                ATTACH_DEFAULT,
                0,
            ),
        };
        DynamicText {
            text: value,
            info_name: None,
            x,
            y: cneg(y),
            z,
            rotation: rot_norm(rotation),
            h_alignment: HAlignment::Left,
            v_alignment: VAlignment::Top,
            font: FontInfo::with_point_size(height),
            text_from: TextFrom::UserText,
            frame: false,
            text_width: TEXT_WIDTH_AUTO,
            keep_visual_rotation: false,
            color: match self.color {
                Some(c) => c,
                None => 0,
            },
            attachment_point: attach,
            reference_rectangle_width: ref_width,
        }
    }
}

/// The block table an optional reference stands for.
pub open spec fn s_blocks_view(b: Option<&Vec<Block>>) -> Seq<Block> {
    match b {
        Some(v) => v@,
        None => Seq::empty(),
    }
}

/// The error (if any) that building one entity reports, for a given
/// spline resolution, block table and remaining nesting allowance.
pub open spec fn s_build_err(e: Entity, ss: int, blocks: Seq<Block>, depth: int) -> Option<
    BuildError>
    decreases depth, 0int, 0int,
{
    match e {
        Entity::Circle(_) => None,
        Entity::Line(_) => None,
        Entity::Arc(_) => None,
        Entity::Ellipse(_) => None,
        Entity::Polyline(p) => if p.vertices@.len() <= 1 {
            Some(BuildError::DegenerateGeometry)
        } else {
            None
        },
        Entity::LwPolyline(p) => if p.vertices@.len() <= 1 {
            Some(BuildError::DegenerateGeometry)
        } else {
            None
        },
        Entity::Spline(sp) => if !crate::tessellate::s_tess_ok(
            sp.degree as int,
            sp.control_points@,
            sp.knots@,
            ss,
        ) {
            Some(BuildError::DegenerateGeometry)
        } else {
            None
        },
        Entity::Text(_) => None,
        Entity::MText(_) => None,
        Entity::AttributeDefinition(_) => None,
        Entity::Insert(ins) => {
            let found = s_find_block(blocks, ins.name@, blocks.len() as int);
            if found is None {
                Some(BuildError::MissingBlock)
            } else if depth <= 0 {
                Some(BuildError::RecursionLimitExceeded)
            } else if s_group_rec_err(blocks[found->0].entities@, ss, blocks, depth - 1) {
                Some(BuildError::RecursionLimitExceeded)
            } else {
                None
            }
        },
        Entity::Leader(_) => None,
        Entity::Solid(_) => None,
        Entity::Unsupported => Some(BuildError::UnsupportedEntity),
    }
}

/// Whether some entity of a block body hits the nesting bound.
pub open spec fn s_group_rec_err(ents: Seq<Entity>, ss: int, blocks: Seq<Block>, depth: int) -> bool
    decreases depth, 1int, 0int,
{
    exists|i: int|
        0 <= i < ents.len() && s_build_err(#[trigger] ents[i], ss, blocks, depth) == Some(
            BuildError::RecursionLimitExceeded,
        )
}

/// `dt` is the placed dynamic text for the given source fields: built as
/// by the step builder, then scaled and shifted by the context.
pub open spec fn s_placed_dtext(
    x: int,
    y: int,
    z: int,
    rotation: int,
    height: int,
    value: Seq<char>,
    color: u32,
    attach: int,
    ref_width: int,
    sx: int,
    sy: int,
    ox: int,
    oy: int,
    dt: DynamicText,
) -> bool {
    &&& dt.x as int == s_place_x(x, sx, ox)
    &&& dt.y as int == s_place_y(clamped(-y), sy, oy)
    &&& dt.z as int == z
    &&& dt.rotation as int == s_rot_norm(rotation)
    &&& dt.text@ == value
    &&& dt.info_name is None
    &&& dt.h_alignment == HAlignment::Left
    &&& dt.v_alignment == VAlignment::Top
    &&& dt.font.point_size as int == s_sized(height, sx)
    &&& dt.font.family@ == "osifont"@
    &&& dt.font.pixel_size == 0
    &&& dt.font.style_hint == crate::font::FontStyleHint::Helvetica
    &&& dt.font.weight == 0
    &&& dt.font.style == crate::font::FontStyle::Normal
    &&& dt.font.underline == false
    &&& dt.font.strike_out == false
    &&& dt.font.fixed_pitch == false
    &&& dt.font.style_name is None
    &&& dt.text_from == TextFrom::UserText
    &&& dt.frame == false
    &&& dt.text_width == TEXT_WIDTH_AUTO
    &&& dt.keep_visual_rotation == false
    &&& dt.color == color
    &&& dt.attachment_point as int == attach
    &&& dt.reference_rectangle_width as int == ref_width
}

/// The line for one leader segment: the chain's segment `i`, with an
/// arrowhead on the very first tip when the leader asks for one, always
/// stroked normal.
pub open spec fn s_leader_line(ld: LeaderEnt, i: int, sx: int, sy: int, ox: int, oy: int) -> Line {
    let fx = Factor { num: sx as i128, den: SCALE as i128 };
    let fy = Factor { num: sy as i128, den: SCALE as i128 };
    Line {
        x1: s_place_x(ld.vertices@[i].x as int, sx, ox) as i64,
        y1: s_place_y(clamped(-(ld.vertices@[i].y as int)), sy, oy) as i64,
        x2: s_place_x(ld.vertices@[i + 1].x as int, sx, ox) as i64,
        y2: s_place_y(clamped(-(ld.vertices@[i + 1].y as int)), sy, oy) as i64,
        length1: crate::line::s_scaled_end_len(END_LEN_DEFAULT as int, fx, fy) as i64,
        end1: if ld.use_arrowheads && i == 0 {
            LineEnd::SimpleArrow
        } else {
            LineEnd::Plain
        },
        length2: crate::line::s_scaled_end_len(END_LEN_DEFAULT as int, fx, fy) as i64,
        end2: LineEnd::Plain,
        antialias: false,
        style: StrokeWeight::Normal,
    }
}

/// How many segments a leader chain yields.
pub open spec fn s_leader_count(ld: LeaderEnt) -> int {
    if ld.vertices@.len() >= 2 {
        ld.vertices@.len() - 1
    } else {
        0
    }
}

/// `o` is the shape one entity builds under the context: one exact clause
/// per entity kind; a block instance becomes the group of its block's
/// successfully built entities, in order, under the composed transform.
pub open spec fn s_built(
    e: Entity,
    ss: int,
    sx: int,
    sy: int,
    ox: int,
    oy: int,
    blocks: Seq<Block>,
    depth: int,
    o: Objects,
) -> bool
    decreases depth, 2int, 0int,
{
    match e {
        Entity::Circle(c) => o == Objects::Ellipse(s_circle_shape(c, sx, sy, ox, oy)),
        Entity::Line(l) => o == Objects::Line(s_line_shape(l, sx, sy, ox, oy)),
        Entity::Arc(a) => o == Objects::Arc(s_arc_shape(a, sx, sy, ox, oy)),
        Entity::Ellipse(el) => o == Objects::Ellipse(s_ellipse_shape(el, sx, sy, ox, oy)),
        Entity::Polyline(p) => s_built_polyline(
            p.vertices@,
            p.closed,
            p.thickness as int,
            sx,
            sy,
            ox,
            oy,
            o,
        ),
        Entity::LwPolyline(p) => s_built_polyline(
            p.vertices@,
            p.closed,
            p.thickness as int,
            sx,
            sy,
            ox,
            oy,
            o,
        ),
        Entity::Spline(sp) => o matches Objects::Polygon(pg) && s_spline_poly(
            sp,
            ss,
            sx,
            sy,
            ox,
            oy,
            pg,
        ),
        Entity::Text(t) => o matches Objects::DynamicText(dt) && s_placed_dtext(
            t.x as int,
            t.y as int,
            t.z as int,
            t.rotation as int,
            t.height as int,
            t.value@,
            t.color,
            ATTACH_DEFAULT as int,
            0,
            sx,
            sy,
            ox,
            oy,
            dt,
        ),
        Entity::MText(m) => o matches Objects::DynamicText(dt) && s_placed_dtext(
            m.x as int,
            m.y as int,
            m.z as int,
            m.rotation as int,
            m.height as int,
            s_unescape(m.text@),
            m.color,
            m.attachment_point as int,
            m.reference_rectangle_width as int,
            sx,
            sy,
            ox,
            oy,
            dt,
        ),
        Entity::AttributeDefinition(a) => o matches Objects::DynamicText(dt) && s_placed_dtext(
            a.x as int,
            a.y as int,
            a.z as int,
            a.rotation as int,
            a.height as int,
            a.value@,
            a.color,
            ATTACH_DEFAULT as int,
            0,
            sx,
            sy,
            ox,
            oy,
            dt,
        ),
        Entity::Insert(ins) => {
            let found = s_find_block(blocks, ins.name@, blocks.len() as int);
            if depth <= 0 {
                false
            } else {
            &&& found is Some
            &&& o matches Objects::Group(w) && s_group_built(
                blocks[found->0].entities@,
                ss,
                s_compose(sx, ins.x_scale as int),
                s_compose(sy, ins.y_scale as int),
                s_add(ox, s_mul_frac(s_sub(ins.x as int, blocks[found->0].base_x as int), sx, SCALE as int)),
                s_add(oy, s_mul_frac(s_sub(ins.y as int, blocks[found->0].base_y as int), sy, SCALE as int)),
                blocks,
                depth - 1,
                w@,
            )
            }
        },
        Entity::Leader(ld) => o matches Objects::Group(w) && {
            &&& w@.len() == s_leader_count(ld)
            &&& forall|i: int|
                0 <= i < s_leader_count(ld) ==> #[trigger] w@[i] == Objects::Line(
                    s_leader_line(ld, i, sx, sy, ox, oy),
                )
        },
        Entity::Solid(sd) => o matches Objects::Polygon(pg) && s_solid_poly(
            sd,
            sx,
            sy,
            ox,
            oy,
            pg,
        ),
        Entity::Unsupported => true,
    }
}

/// What a polyline with at least two vertices builds: exactly two
/// vertices always collapse to a line; three or more go to the classifier
/// (circularity, then rectangularity) and fall back to the generic
/// polygon.
pub open spec fn s_built_polyline(
    verts: Seq<Point>,
    closed: bool,
    thickness: int,
    sx: int,
    sy: int,
    ox: int,
    oy: int,
    o: Objects,
) -> bool {
    if verts.len() == 2 {
        o == Objects::Line(s_pair_line_shape(verts[0], verts[1], thickness, sx, sy, ox, oy))
    } else if s_is_circular(verts) {
        o == Objects::Ellipse(s_circular_shape(verts, sx, sy, ox, oy))
    } else if s_is_rectangular(verts) {
        o == Objects::Rectangle(s_rectangular_shape(verts, sx, sy, ox, oy))
    } else {
        o matches Objects::Polygon(pg) && s_poly_from_verts(
            verts,
            closed,
            crate::style::s_weight(thickness, THICK_LIMIT_FINE as int),
            sx,
            sy,
            ox,
            oy,
            pg,
        )
    }
}

/// `objs` are exactly the successfully built shapes of `ents`, in order;
/// entities whose build reports an error contribute nothing.
pub open spec fn s_group_built(
    ents: Seq<Entity>,
    ss: int,
    sx: int,
    sy: int,
    ox: int,
    oy: int,
    blocks: Seq<Block>,
    depth: int,
    objs: Seq<Objects>,
) -> bool
    decreases depth, 3int, ents.len(),
{
    if ents.len() == 0 {
        objs.len() == 0
    } else if s_build_err(ents[0], ss, blocks, depth) is Some {
        s_group_built(ents.skip(1), ss, sx, sy, ox, oy, blocks, depth, objs)
    } else {
        &&& objs.len() >= 1
        &&& s_built(ents[0], ss, sx, sy, ox, oy, blocks, depth, objs[0])
        &&& s_group_built(ents.skip(1), ss, sx, sy, ox, oy, blocks, depth, objs.skip(1))
    }
}

/// Extending a built prefix by one erring entity changes nothing.
proof fn lemma_group_built_snoc_err(
    ents: Seq<Entity>,
    e: Entity,
    ss: int,
    sx: int,
    sy: int,
    ox: int,
    oy: int,
    blocks: Seq<Block>,
    depth: int,
    objs: Seq<Objects>,
)
    requires
        s_group_built(ents, ss, sx, sy, ox, oy, blocks, depth, objs),
        s_build_err(e, ss, blocks, depth) is Some,
    ensures
        s_group_built(ents.push(e), ss, sx, sy, ox, oy, blocks, depth, objs),
    decreases ents.len(),
{
    if ents.len() == 0 {
        assert(ents.push(e)[0] == e);
        assert(ents.push(e).skip(1) =~= ents);
    } else {
        assert(ents.push(e)[0] == ents[0]);
        assert(ents.push(e).skip(1) =~= ents.skip(1).push(e));
        if s_build_err(ents[0], ss, blocks, depth) is Some {
            lemma_group_built_snoc_err(ents.skip(1), e, ss, sx, sy, ox, oy, blocks, depth, objs);
        } else {
            lemma_group_built_snoc_err(
                ents.skip(1),
                e,
                ss,
                sx,
                sy,
                ox,
                oy,
                blocks,
                depth,
                objs.skip(1),
            );
        }
    }
}

/// Extending a built prefix by one successful entity appends its shape.
proof fn lemma_group_built_snoc_ok(
    ents: Seq<Entity>,
    e: Entity,
    ss: int,
    sx: int,
    sy: int,
    ox: int,
    oy: int,
    blocks: Seq<Block>,
    depth: int,
    objs: Seq<Objects>,
    o: Objects,
)
    requires
        s_group_built(ents, ss, sx, sy, ox, oy, blocks, depth, objs),
        s_build_err(e, ss, blocks, depth) is None,
        s_built(e, ss, sx, sy, ox, oy, blocks, depth, o),
    ensures
        s_group_built(ents.push(e), ss, sx, sy, ox, oy, blocks, depth, objs.push(o)),
    decreases ents.len(),
{
    if ents.len() == 0 {
        assert(ents.push(e)[0] == e);
        assert(objs.push(o)[0] == o);
        assert(ents.push(e).skip(1) =~= ents);
        assert(objs.push(o).skip(1) =~= objs);
    } else {
        assert(ents.push(e)[0] == ents[0]);
        assert(ents.push(e).skip(1) =~= ents.skip(1).push(e));
        if s_build_err(ents[0], ss, blocks, depth) is Some {
            lemma_group_built_snoc_ok(
                ents.skip(1),
                e,
                ss,
                sx,
                sy,
                ox,
                oy,
                blocks,
                depth,
                objs,
                o,
            );
        } else {
            assert(objs.push(o)[0] == objs[0]);
            assert(objs.push(o).skip(1) =~= objs.skip(1).push(o));
            lemma_group_built_snoc_ok(
                ents.skip(1),
                e,
                ss,
                sx,
                sy,
                ox,
                oy,
                blocks,
                depth,
                objs.skip(1),
                o,
            );
        }
    }
}

/// Builds one entity under an explicit context and nesting allowance.
pub fn build_at(
    e: &Entity,
    ss: u32,
    sx: i64,
    sy: i64,
    ox: i64,
    oy: i64,
    blocks: Option<&Vec<Block>>,
    depth: u32,
) -> (r: Result<Objects, BuildError>)
    ensures
        r is Err <==> s_build_err(*e, ss as int, s_blocks_view(blocks), depth as int) is Some,
        r matches Err(er) ==> Some(er) == s_build_err(
            *e,
            ss as int,
            s_blocks_view(blocks),
            depth as int,
        ),
        r matches Ok(o) ==> s_built(
            *e,
            ss as int,
            sx as int,
            sy as int,
            ox as int,
            oy as int,
            s_blocks_view(blocks),
            depth as int,
            o,
        ),
    decreases depth,
{
    let fx = Factor::from_micro(sx);
    let fy = Factor::from_micro(sy);
    match e {
        Entity::Circle(c) => Ok(Objects::Ellipse(build_circle(c, sx, sy, ox, oy))),
        Entity::Line(l) => Ok(Objects::Line(build_line(l, sx, sy, ox, oy))),
        Entity::Arc(a) => Ok(Objects::Arc(build_arc(a, sx, sy, ox, oy))),
        Entity::Ellipse(el) => Ok(Objects::Ellipse(build_ellipse(el, sx, sy, ox, oy))),
        Entity::Polyline(p) => build_polyline_verts(
            &p.vertices,
            p.closed,
            p.thickness,
            sx,
            sy,
            ox,
            oy,
        ),
        Entity::LwPolyline(p) => build_polyline_verts(
            &p.vertices,
            p.closed,
            p.thickness,
            sx,
            sy,
            ox,
            oy,
        ),
        Entity::Spline(sp) => match build_spline(sp, ss, sx, sy, ox, oy) {
            Some(pg) => Ok(Objects::Polygon(pg)),
            None => Err(BuildError::DegenerateGeometry),
        },
        Entity::Text(t) => {
            let mut dt = DTextBuilder::from_text(t).color(t.color).build();
            dt.scale(fx, fy);
            dt.offset(ox, oy);
            Ok(Objects::DynamicText(dt))
        },
        Entity::MText(m) => {
            let mut dt = DTextBuilder::from_mtext(m).color(m.color).build();
            dt.scale(fx, fy);
            dt.offset(ox, oy);
            Ok(Objects::DynamicText(dt))
        },
        Entity::AttributeDefinition(a) => {
            let mut dt = DTextBuilder::from_attrib(a).color(a.color).build();
            dt.scale(fx, fy);
            dt.offset(ox, oy);
            Ok(Objects::DynamicText(dt))
        },
        Entity::Insert(ins) => {
            let bl = match blocks {
                Some(bl) => bl,
                None => {
                    return Err(BuildError::MissingBlock);
                },
            };
            let b = match find_block(bl, &ins.name) {
                Some(b) => b,
                None => {
                    return Err(BuildError::MissingBlock);
                },
            };
            if depth == 0 {
                return Err(BuildError::RecursionLimitExceeded);
            }
            let nsx = ccompose(sx, ins.x_scale);
            let nsy = ccompose(sy, ins.y_scale);
            let nox = cadd(ox, cmul(csub(ins.x, b.base_x), Factor::from_micro(sx)));
            let noy = cadd(oy, cmul(csub(ins.y, b.base_y), Factor::from_micro(sy)));
            let n = b.entities.len();
            let mut out: Vec<Objects> = Vec::new();
            let mut i: usize = 0;
            let ghost bv = s_blocks_view(blocks);
            let ghost bi = s_find_block(bv, ins.name@, bv.len() as int)->0;
            proof {
                assert(b.entities@.subrange(0, 0) =~= Seq::<Entity>::empty());
            }
            while i < n
                invariant
                    n == b.entities@.len(),
                    0 <= i <= n,
                    depth >= 1,
                    bv == s_blocks_view(blocks),
                    s_find_block(bv, ins.name@, bv.len() as int) == Some(bi),
                    0 <= bi < bv.len(),
                    bv[bi] == *b,
                    *e == Entity::Insert(*ins),
                    nsx as int == s_compose(sx as int, ins.x_scale as int),
                    nsy as int == s_compose(sy as int, ins.y_scale as int),
                    nox as int == s_add(
                        ox as int,
                        s_mul_frac(s_sub(ins.x as int, b.base_x as int), sx as int, SCALE as int),
                    ),
                    noy as int == s_add(
                        oy as int,
                        s_mul_frac(s_sub(ins.y as int, b.base_y as int), sy as int, SCALE as int),
                    ),
                    forall|j: int|
                        0 <= j < i ==> s_build_err(
                            #[trigger] b.entities@[j],
                            ss as int,
                            s_blocks_view(blocks),
                            depth - 1,
                        ) != Some(BuildError::RecursionLimitExceeded),
                    s_group_built(
                        b.entities@.subrange(0, i as int),
                        ss as int,
                        nsx as int,
                        nsy as int,
                        nox as int,
                        noy as int,
                        s_blocks_view(blocks),
                        depth - 1,
                        out@,
                    ),
                decreases n - i,
            {
                let child = &b.entities[i];
                let ghost pre = b.entities@.subrange(0, i as int);
                match build_at(child, ss, nsx, nsy, nox, noy, blocks, depth - 1) {
                    Ok(o) => {
                        proof {
                            lemma_group_built_snoc_ok(
                                pre,
                                b.entities@[i as int],
                                ss as int,
                                nsx as int,
                                nsy as int,
                                nox as int,
                                noy as int,
                                s_blocks_view(blocks),
                                depth - 1,
                                out@,
                                o,
                            );
                            assert(pre.push(b.entities@[i as int]) =~= b.entities@.subrange(
                                0,
                                i as int + 1,
                            ));
                        }
                        out.push(o);
                    },
                    Err(er) => {
                        if matches!(er, BuildError::RecursionLimitExceeded) {
                            proof {
                                assert(s_build_err(
                                    bv[bi].entities@[i as int],
                                    ss as int,
                                    bv,
                                    depth - 1,
                                ) == Some(BuildError::RecursionLimitExceeded));
                                assert(s_group_rec_err(bv[bi].entities@, ss as int, bv, depth - 1));
                            }
                            return Err(BuildError::RecursionLimitExceeded);
                        }
                        proof {
                            lemma_group_built_snoc_err(
                                pre,
                                b.entities@[i as int],
                                ss as int,
                                nsx as int,
                                nsy as int,
                                nox as int,
                                noy as int,
                                s_blocks_view(blocks),
                                depth - 1,
                                out@,
                            );
                            assert(pre.push(b.entities@[i as int]) =~= b.entities@.subrange(
                                0,
                                i as int + 1,
                            ));
                        }
                    },
                }
                i += 1;
            }
            proof {
                assert(b.entities@.subrange(0, n as int) =~= b.entities@);
            }
            Ok(Objects::Group(out))
        },
        Entity::Leader(ld) => {
            let mut out: Vec<Objects> = Vec::new();
            let n = ld.vertices.len();
            if n >= 2 {
                let mut i: usize = 0;
                while i < n - 1
                    invariant
                        n == ld.vertices@.len(),
                        n >= 2,
                        0 <= i <= n - 1,
                        out@.len() == i,
                        fx == (Factor { num: sx as i128, den: SCALE as i128 }),
                        fy == (Factor { num: sy as i128, den: SCALE as i128 }),
                        fx.valid(),
                        fy.valid(),
                        forall|j: int|
                            0 <= j < i ==> #[trigger] out@[j] == Objects::Line(
                                s_leader_line(*ld, j, sx as int, sy as int, ox as int, oy as int),
                            ),
                    decreases n - 1 - i,
                {
                    let a = ld.vertices[i];
                    let b2 = ld.vertices[i + 1];
                    let end1 = if ld.use_arrowheads && i == 0 {
                        LineEnd::SimpleArrow
                    } else {
                        LineEnd::Plain
                    };
                    let mut ln = Line {
                        x1: a.x,
                        y1: cneg(a.y),
                        x2: b2.x,
                        y2: cneg(b2.y),
                        length1: END_LEN_DEFAULT,
                        end1,
                        length2: END_LEN_DEFAULT,
                        end2: LineEnd::Plain,
                        antialias: false,
                        style: StrokeWeight::Normal,
                    };
                    ln.scale(fx, fy);
                    ln.offset(ox, oy);
                    out.push(Objects::Line(ln));
                    i += 1;
                }
            }
            Ok(Objects::Group(out))
        },
        Entity::Solid(sd) => Ok(Objects::Polygon(build_solid(sd, sx, sy, ox, oy))),
        Entity::Unsupported => Err(BuildError::UnsupportedEntity),
    }
}

/// Builds a polyline with the two-vertex collapse and the classifier
/// dispatch.
fn build_polyline_verts(
    verts: &Vec<Point>,
    closed: bool,
    thickness: i64,
    sx: i64,
    sy: i64,
    ox: i64,
    oy: i64,
) -> (r: Result<Objects, BuildError>)
    ensures
        r is Err <==> verts@.len() <= 1,
        r matches Err(er) ==> er == BuildError::DegenerateGeometry,
        r matches Ok(o) ==> s_built_polyline(
            verts@,
            closed,
            thickness as int,
            sx as int,
            sy as int,
            ox as int,
            oy as int,
            o,
        ),
{
    let n = verts.len();
    if n <= 1 {
        return Err(BuildError::DegenerateGeometry);
    }
    if n == 2 {
        return Ok(
            Objects::Line(build_pair_line(verts[0], verts[1], thickness, sx, sy, ox, oy)),
        );
    }
    match classify_and_place(verts, sx, sy, ox, oy) {
        Some(o) => Ok(o),
        None => Ok(
            Objects::Polygon(
                build_poly_from_verts(
                    verts,
                    closed,
                    weight_for(thickness, THICK_LIMIT_FINE),
                    sx,
                    sy,
                    ox,
                    oy,
                ),
            ),
        ),
    }
}

/// Step-by-step builder for one entity's shape, carrying the transform
/// context and the block table.
pub struct ObjectsBuilder<'a> {
    pub ent: &'a Entity,
    pub spline_step: u32,
    pub blocks: Option<&'a Vec<Block>>,
    pub offset: Offset,
    pub scale_fact: ScaleFactor,
}

impl<'a> ObjectsBuilder<'a> {
    /// Starts building one entity at the given curve resolution, with no
    /// block table, no offset and the identity scale.
    pub fn new(ent: &'a Entity, spline_step: u32) -> (r: Self)
        ensures
            r.ent == ent,
            r.spline_step == spline_step,
            r.blocks is None,
            r.offset == (Offset { x: 0, y: 0 }),
            r.scale_fact == (ScaleFactor { x: SCALE, y: SCALE }),
    {
        Self {
            ent,
            spline_step,
            blocks: None,
            offset: Offset { x: 0, y: 0 },
            scale_fact: ScaleFactor { x: SCALE, y: SCALE },
        }
    }

    /// Supplies the block table for instance resolution.
    pub fn blocks(self, blocks: &'a Vec<Block>) -> (r: Self)
        ensures
            r.blocks == Some(blocks),
            r.ent == self.ent,
            r.spline_step == self.spline_step,
            r.offset == self.offset,
            r.scale_fact == self.scale_fact,
    {
        Self { blocks: Some(blocks), ..self }
    }

    /// Supplies the context offset.
    pub fn offsets(self, x: i64, y: i64) -> (r: Self)
        ensures
            r.offset == (Offset { x, y }),
            r.ent == self.ent,
            r.spline_step == self.spline_step,
            r.blocks == self.blocks,
            r.scale_fact == self.scale_fact,
    {
        Self { offset: Offset { x, y }, ..self }
    }

    /// Supplies the context scale factors.
    pub fn scaling(self, fact_x: i64, fact_y: i64) -> (r: Self)
        ensures
            r.scale_fact == (ScaleFactor { x: fact_x, y: fact_y }),
            r.ent == self.ent,
            r.spline_step == self.spline_step,
            r.blocks == self.blocks,
            r.offset == self.offset,
    {
        Self { scale_fact: ScaleFactor { x: fact_x, y: fact_y }, ..self }
    }

    /// Builds the shape, expanding block instances to the full nesting
    /// allowance.
    pub fn build(self) -> (r: Result<Objects, BuildError>)
        ensures
            r is Err <==> s_build_err(
                *self.ent,
                self.spline_step as int,
                s_blocks_view(self.blocks),
                MAX_BLOCK_DEPTH as int,
            ) is Some,
            r matches Err(er) ==> Some(er) == s_build_err(
                *self.ent,
                self.spline_step as int,
                s_blocks_view(self.blocks),
                MAX_BLOCK_DEPTH as int,
            ),
            r matches Ok(o) ==> s_built(
                *self.ent,
                self.spline_step as int,
                self.scale_fact.x as int,
                self.scale_fact.y as int,
                self.offset.x as int,
                self.offset.y as int,
                s_blocks_view(self.blocks),
                MAX_BLOCK_DEPTH as int,
                o,
            ),
    {
        build_at(
            self.ent,
            self.spline_step,
            self.scale_fact.x,
            self.scale_fact.y,
            self.offset.x,
            self.offset.y,
            self.blocks,
            MAX_BLOCK_DEPTH,
        )
    }
}

/// How many entities were skipped, by failure kind.
#[derive(Clone, Copy, Debug, PartialEq, Eq, Structural, Default)]
pub struct SkipCounts {
    pub unsupported: usize,
    pub degenerate: usize,
    pub missing_block: usize,
    pub recursion: usize,
}

/// How many of the entities report the given error.
pub open spec fn s_err_count(
    ents: Seq<Entity>,
    ss: int,
    blocks: Seq<Block>,
    depth: int,
    kind: BuildError,
) -> int
    decreases ents.len(),
{
    if ents.len() == 0 {
        0
    } else {
        (if s_build_err(ents[0], ss, blocks, depth) == Some(kind) {
            1int
        } else {
            0int
        }) + s_err_count(ents.skip(1), ss, blocks, depth, kind)
    }
}

/// Appending one entity adds one to exactly its own error count.
proof fn lemma_err_count_snoc(
    ents: Seq<Entity>,
    e: Entity,
    ss: int,
    blocks: Seq<Block>,
    depth: int,
    kind: BuildError,
)
    ensures
        s_err_count(ents.push(e), ss, blocks, depth, kind) == s_err_count(
            ents,
            ss,
            blocks,
            depth,
            kind,
        ) + (if s_build_err(e, ss, blocks, depth) == Some(kind) {
            1int
        } else {
            0int
        }),
    decreases ents.len(),
{
    if ents.len() == 0 {
        assert(ents.push(e)[0] == e);
        assert(ents.push(e).skip(1) =~= ents);
    } else {
        assert(ents.push(e)[0] == ents[0]);
        assert(ents.push(e).skip(1) =~= ents.skip(1).push(e));
        lemma_err_count_snoc(ents.skip(1), e, ss, blocks, depth, kind);
    }
}

/// An error count never exceeds the number of entities.
proof fn lemma_err_count_le(
    ents: Seq<Entity>,
    ss: int,
    blocks: Seq<Block>,
    depth: int,
    kind: BuildError,
)
    ensures
        0 <= s_err_count(ents, ss, blocks, depth, kind) <= ents.len(),
    decreases ents.len(),
{
    if ents.len() > 0 {
        lemma_err_count_le(ents.skip(1), ss, blocks, depth, kind);
    }
}

/// The object tree of a whole document: the shapes its entities build, in
/// order, with per-kind counts of what was skipped.
pub struct Description {
    pub objects: Vec<Objects>,
}

impl Description {
    /// Converts every entity of a document under the identity context:
    /// failures are skipped and counted, never fatal for the document.
    pub fn from_document(doc: &crate::entity::Document, spline_step: u32) -> (r: (
        Description,
        SkipCounts,
    ))
        ensures
            s_group_built(
                doc.entities@,
                spline_step as int,
                SCALE as int,
                SCALE as int,
                0,
                0,
                doc.blocks@,
                MAX_BLOCK_DEPTH as int,
                r.0.objects@,
            ),
            r.1.unsupported as int == s_err_count(
                doc.entities@,
                spline_step as int,
                doc.blocks@,
                MAX_BLOCK_DEPTH as int,
                BuildError::UnsupportedEntity,
            ),
            r.1.degenerate as int == s_err_count(
                doc.entities@,
                spline_step as int,
                doc.blocks@,
                MAX_BLOCK_DEPTH as int,
                BuildError::DegenerateGeometry,
            ),
            r.1.missing_block as int == s_err_count(
                doc.entities@,
                spline_step as int,
                doc.blocks@,
                MAX_BLOCK_DEPTH as int,
                BuildError::MissingBlock,
            ),
            r.1.recursion as int == s_err_count(
                doc.entities@,
                spline_step as int,
                doc.blocks@,
                MAX_BLOCK_DEPTH as int,
                BuildError::RecursionLimitExceeded,
            ),
    {
        let n = doc.entities.len();
        let mut objects: Vec<Objects> = Vec::new();
        let mut counts = SkipCounts { unsupported: 0, degenerate: 0, missing_block: 0, recursion: 0 };
        let mut i: usize = 0;
        proof {
            assert(doc.entities@.subrange(0, 0) =~= Seq::<Entity>::empty());
        }
        while i < n
            invariant
                n == doc.entities@.len(),
                0 <= i <= n,
                s_group_built(
                    doc.entities@.subrange(0, i as int),
                    spline_step as int,
                    SCALE as int,
                    SCALE as int,
                    0,
                    0,
                    doc.blocks@,
                    MAX_BLOCK_DEPTH as int,
                    objects@,
                ),
                counts.unsupported as int == s_err_count(
                    doc.entities@.subrange(0, i as int),
                    spline_step as int,
                    doc.blocks@,
                    MAX_BLOCK_DEPTH as int,
                    BuildError::UnsupportedEntity,
                ),
                counts.degenerate as int == s_err_count(
                    doc.entities@.subrange(0, i as int),
                    spline_step as int,
                    doc.blocks@,
                    MAX_BLOCK_DEPTH as int,
                    BuildError::DegenerateGeometry,
                ),
                counts.missing_block as int == s_err_count(
                    doc.entities@.subrange(0, i as int),
                    spline_step as int,
                    doc.blocks@,
                    MAX_BLOCK_DEPTH as int,
                    BuildError::MissingBlock,
                ),
                counts.recursion as int == s_err_count(
                    doc.entities@.subrange(0, i as int),
                    spline_step as int,
                    doc.blocks@,
                    MAX_BLOCK_DEPTH as int,
                    BuildError::RecursionLimitExceeded,
                ),
            decreases n - i,
        {
            let ghost pre = doc.entities@.subrange(0, i as int);
            let e = &doc.entities[i];
            proof {
                lemma_err_count_le(
                    pre,
                    spline_step as int,
                    doc.blocks@,
                    MAX_BLOCK_DEPTH as int,
                    BuildError::UnsupportedEntity,
                );
                lemma_err_count_le(
                    pre,
                    spline_step as int,
                    doc.blocks@,
                    MAX_BLOCK_DEPTH as int,
                    BuildError::DegenerateGeometry,
                );
                lemma_err_count_le(
                    pre,
                    spline_step as int,
                    doc.blocks@,
                    MAX_BLOCK_DEPTH as int,
                    BuildError::MissingBlock,
                );
                lemma_err_count_le(
                    pre,
                    spline_step as int,
                    doc.blocks@,
                    MAX_BLOCK_DEPTH as int,
                    BuildError::RecursionLimitExceeded,
                );
                lemma_err_count_snoc(
                    pre,
                    doc.entities@[i as int],
                    spline_step as int,
                    doc.blocks@,
                    MAX_BLOCK_DEPTH as int,
                    BuildError::UnsupportedEntity,
                );
                lemma_err_count_snoc(
                    pre,
                    doc.entities@[i as int],
                    spline_step as int,
                    doc.blocks@,
                    MAX_BLOCK_DEPTH as int,
                    BuildError::DegenerateGeometry,
                );
                lemma_err_count_snoc(
                    pre,
                    doc.entities@[i as int],
                    spline_step as int,
                    doc.blocks@,
                    MAX_BLOCK_DEPTH as int,
                    BuildError::MissingBlock,
                );
                lemma_err_count_snoc(
                    pre,
                    doc.entities@[i as int],
                    spline_step as int,
                    doc.blocks@,
                    MAX_BLOCK_DEPTH as int,
                    BuildError::RecursionLimitExceeded,
                );
                assert(pre.push(doc.entities@[i as int]) =~= doc.entities@.subrange(
                    0,
                    i as int + 1,
                ));
            }
            match ObjectsBuilder::new(e, spline_step).blocks(&doc.blocks).build() {
                Ok(o) => {
                    proof {
                        lemma_group_built_snoc_ok(
                            pre,
                            doc.entities@[i as int],
                            spline_step as int,
                            SCALE as int,
                            SCALE as int,
                            0,
                            0,
                            doc.blocks@,
                            MAX_BLOCK_DEPTH as int,
                            objects@,
                            o,
                        );
                    }
                    objects.push(o);
                },
                Err(er) => {
                    proof {
                        lemma_group_built_snoc_err(
                            pre,
                            doc.entities@[i as int],
                            spline_step as int,
                            SCALE as int,
                            SCALE as int,
                            0,
                            0,
                            doc.blocks@,
                            MAX_BLOCK_DEPTH as int,
                            objects@,
                        );
                    }
                    match er {
                        BuildError::UnsupportedEntity => {
                            counts.unsupported = counts.unsupported + 1;
                        },
                        BuildError::DegenerateGeometry => {
                            counts.degenerate = counts.degenerate + 1;
                        },
                        BuildError::MissingBlock => {
                            counts.missing_block = counts.missing_block + 1;
                        },
                        BuildError::RecursionLimitExceeded => {
                            counts.recursion = counts.recursion + 1;
                        },
                    }
                },
            }
            i += 1;
        }
        proof {
            assert(doc.entities@.subrange(0, n as int) =~= doc.entities@);
        }
        (Description { objects }, counts)
    }

    /// Scales every shape of the tree in place.
    pub fn scale(&mut self, fx: Factor, fy: Factor)
        requires
            fx.valid(),
            fy.valid(),
        ensures
            crate::objects::s_objs_scaled(old(self).objects@, fx, fy, final(self).objects@),
    {
        crate::objects::objs_scale(&mut self.objects, fx, fy);
    }

    /// Smallest x over the whole tree; 0 when it is empty.
    pub fn left_bound(&self) -> (r: i64)
        ensures
            r as int == crate::objects::s_objs_left(self.objects@, self.objects@.len() as int),
    {
        crate::objects::objs_left_bound(&self.objects)
    }

    /// Largest x over the whole tree; 0 when it is empty.
    pub fn right_bound(&self) -> (r: i64)
        ensures
            r as int == crate::objects::s_objs_right(self.objects@, self.objects@.len() as int),
    {
        crate::objects::objs_right_bound(&self.objects)
    }

    /// Smallest y over the whole tree; 0 when it is empty.
    pub fn top_bound(&self) -> (r: i64)
        ensures
            r as int == crate::objects::s_objs_top(self.objects@, self.objects@.len() as int),
    {
        crate::objects::objs_top_bound(&self.objects)
    }

    /// Largest y over the whole tree; 0 when it is empty.
    pub fn bot_bound(&self) -> (r: i64)
        ensures
            r as int == crate::objects::s_objs_bot(self.objects@, self.objects@.len() as int),
    {
        crate::objects::objs_bot_bound(&self.objects)
    }
}

/// What "valid geometry of a supported kind" means, kind by kind: plain
/// shapes are always valid; a polyline needs at least two vertices; a
/// spline needs an evaluable description; a block instance needs a known
/// block, nesting allowance, and a body that stays within it.
pub open spec fn s_entity_valid(e: Entity, ss: int, blocks: Seq<Block>, depth: int) -> bool {
    match e {
        Entity::Circle(_) => true,
        Entity::Line(_) => true,
        Entity::Arc(_) => true,
        Entity::Ellipse(_) => true,
        Entity::Polyline(p) => p.vertices@.len() >= 2,
        Entity::LwPolyline(p) => p.vertices@.len() >= 2,
        Entity::Spline(sp) => crate::tessellate::s_tess_ok(
            sp.degree as int,
            sp.control_points@,
            sp.knots@,
            ss,
        ),
        Entity::Text(_) => true,
        Entity::MText(_) => true,
        Entity::AttributeDefinition(_) => true,
        Entity::Insert(ins) => {
            let found = s_find_block(blocks, ins.name@, blocks.len() as int);
            &&& found is Some
            &&& depth > 0
            &&& !s_group_rec_err(blocks[found->0].entities@, ss, blocks, depth - 1)
        },
        Entity::Leader(_) => true,
        Entity::Solid(_) => true,
        Entity::Unsupported => false,
    }
}

/// The builder succeeds exactly on supported entities with valid
/// geometry: its error is absent if and only if the entity is valid.
pub proof fn lemma_build_ok_iff_valid(e: Entity, ss: int, blocks: Seq<Block>, depth: int)
    ensures
        s_build_err(e, ss, blocks, depth) is None <==> s_entity_valid(e, ss, blocks, depth),
{
}

/// A polyline of exactly two vertices always builds a line, never a
/// polygon, whatever its closed flag says.
pub proof fn lemma_two_vertex_polyline_is_line(
    verts: Seq<Point>,
    closed: bool,
    thickness: int,
    sx: int,
    sy: int,
    ox: int,
    oy: int,
    o: Objects,
)
    requires
        verts.len() == 2,
        s_built_polyline(verts, closed, thickness, sx, sy, ox, oy, o),
    ensures
        o is Line,
        !(o is Polygon),
{
}

/// A block instance that names no known block reports exactly the
/// missing-block error, whatever else the document holds.
pub proof fn lemma_unknown_block_is_missing(
    ins: InsertEnt,
    ss: int,
    blocks: Seq<Block>,
    depth: int,
)
    requires
        s_find_block(blocks, ins.name@, blocks.len() as int) is None,
    ensures
        s_build_err(Entity::Insert(ins), ss, blocks, depth) == Some(BuildError::MissingBlock),
{
}

/// A four-vertex axis-aligned ring always promotes to the rectangle with
/// its exact extents: the circularity test can never claim it first.
pub proof fn lemma_rectilinear_quad_promotes(
    verts: Seq<Point>,
    closed: bool,
    thickness: int,
    sx: int,
    sy: int,
    ox: int,
    oy: int,
    o: Objects,
)
    requires
        verts.len() == 4,
        s_is_rectangular(verts),
        s_built_polyline(verts, closed, thickness, sx, sy, ox, oy, o),
    ensures
        o == Objects::Rectangle(s_rectangular_shape(verts, sx, sy, ox, oy)),
{
    crate::classify::lemma_axis_quad_not_circular(verts);
}

} // verus!
