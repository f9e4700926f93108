//! Polygon reclassification: decides whether a closed polyline is better
//! represented as a circle-equivalent ellipse or an axis-aligned rectangle.
//!
//! The circularity test computes the thinness ratio `4*pi*area/perimeter^2`
//! of the vertex ring and accepts when it falls inside a two-percent band
//! around 1.  Here `pi` is the rational `PI_NUM / PI_DEN` (the classic
//! 355/113 approximation, off by less than one part in ten million --
//! invisible next to the two-percent band), edge lengths are rounded down
//! to whole micro-units, and the test is evaluated without division by
//! cross-multiplying.  Inputs too large for exact evaluation (vertices
//! beyond `GEOM_LIMIT` or more than `VERTEX_LIMIT` of them) and rings of
//! zero perimeter are simply "not circular", never an error.
//!
//! The rectangularity test asks that every edge of the ring be exactly
//! horizontal or exactly vertical and that consecutive edges alternate.
//! Both tests are applied by the entity builder in a fixed, deliberate
//! order: circularity first, then rectangularity, then the generic-polygon
//! fallback.

use vstd::prelude::*;
use crate::ellipse::Ellipse;
use crate::num::{
    cdist, clamped, cmax, cmin, cneg, csub, s_dist, s_max, s_min, s_sub, sqrt_floor,
    lemma_sqrt_floor_bounds,
};
use crate::polygon::Point;
use crate::rectangle::Rectangle;
use crate::style::StrokeWeight;

verus! {

/// Largest vertex magnitude the circularity ratio is evaluated for.
pub const GEOM_LIMIT: i64 = 100_000_000_000;

/// Largest ring size the circularity ratio is evaluated for.
pub const VERTEX_LIMIT: usize = 100_000;

/// Numerator of the rational standing in for pi.
pub const PI_NUM: i128 = 355;

/// Denominator of the rational standing in for pi.
pub const PI_DEN: i128 = 113;

/// Lower edge of the circularity band, in hundredths.
pub const CIRC_LO_NUM: i128 = 98;

/// Upper edge of the circularity band, in hundredths.
pub const CIRC_HI_NUM: i128 = 102;

/// Denominator of the circularity band edges.
pub const CIRC_DEN: i128 = 100;

/// Largest possible rounded edge length between two in-limit vertices.
pub const MAX_EDGE: i64 = 283_000_000_000;

/// Largest possible cross-product term of two in-limit vertices.
pub const MAX_CROSS: i128 = 20_000_000_000_000_000_000_000;

/// Index of the vertex that follows `i` on the closed ring of `n`.
pub open spec fn s_ring_next(n: int, i: int) -> int {
    if i == n - 1 {
        0
    } else {
        i + 1
    }
}

/// Every one of the first `n` vertices lies inside the evaluation limit.
pub open spec fn s_in_geom_range(ps: Seq<Point>, n: int) -> bool {
    forall|i: int|
        0 <= i < n ==> {
            &&& -(GEOM_LIMIT as int) <= (#[trigger] ps[i]).x as int <= GEOM_LIMIT as int
            &&& -(GEOM_LIMIT as int) <= ps[i].y as int <= GEOM_LIMIT as int
        }
}

/// Sum of the rounded lengths of the first `k` ring edges.
pub open spec fn s_perim_upto(ps: Seq<Point>, k: int) -> int
    decreases k,
{
    if k <= 0 {
        0
    } else {
        let i = k - 1;
        let j = s_ring_next(ps.len() as int, i);
        s_perim_upto(ps, i) + s_dist(ps[i].x as int, ps[i].y as int, ps[j].x as int, ps[j].y as int)
    }
}

/// Signed sum of the first `k` shoelace cross terms.
pub open spec fn s_area2_sum_upto(ps: Seq<Point>, k: int) -> int
    decreases k,
{
    if k <= 0 {
        0
    } else {
        let i = k - 1;
        let j = s_ring_next(ps.len() as int, i);
        s_area2_sum_upto(ps, i) + ps[i].x as int * ps[j].y as int - ps[i].y as int * ps[j].x
            as int
    }
}

/// Twice the enclosed area of the ring (absolute shoelace sum).
pub open spec fn s_area2(ps: Seq<Point>) -> int {
    let a = s_area2_sum_upto(ps, ps.len() as int);
    if a >= 0 {
        a
    } else {
        -a
    }
}

/// Perimeter of the whole ring.
pub open spec fn s_perim(ps: Seq<Point>) -> int {
    s_perim_upto(ps, ps.len() as int)
}

/// The circularity decision: the ring is within the evaluation limits, has
/// positive perimeter, and its thinness ratio `4*pi*area / perim^2` (with
/// `area = area2/2` and the rational pi) lies inside the band.
pub open spec fn s_is_circular(ps: Seq<Point>) -> bool {
    &&& ps.len() >= 3
    &&& ps.len() <= VERTEX_LIMIT
    &&& s_in_geom_range(ps, ps.len() as int)
    &&& s_perim(ps) > 0
    &&& CIRC_LO_NUM * PI_DEN * (s_perim(ps) * s_perim(ps)) <= 2 * PI_NUM * CIRC_DEN * s_area2(ps)
    &&& 2 * PI_NUM * CIRC_DEN * s_area2(ps) <= CIRC_HI_NUM * PI_DEN * (s_perim(ps) * s_perim(ps))
}

/// Ring edge `i` is exactly horizontal (y constant, x moving).
pub open spec fn s_horiz(ps: Seq<Point>, i: int) -> bool {
    let j = s_ring_next(ps.len() as int, i);
    ps[i].y == ps[j].y && ps[i].x != ps[j].x
}

/// Ring edge `i` is exactly vertical (x constant, y moving).
pub open spec fn s_vert(ps: Seq<Point>, i: int) -> bool {
    let j = s_ring_next(ps.len() as int, i);
    ps[i].x == ps[j].x && ps[i].y != ps[j].y
}

/// The rectangularity decision: every ring edge is axis-aligned and
/// consecutive edges alternate between horizontal and vertical.
pub open spec fn s_is_rectangular(ps: Seq<Point>) -> bool {
    &&& ps.len() >= 3
    &&& forall|i: int|
        0 <= i < ps.len() ==> {
            let j = s_ring_next(ps.len() as int, i);
            &&& (#[trigger] s_horiz(ps, i)) || s_vert(ps, i)
            &&& (s_horiz(ps, i) ==> s_vert(ps, j))
            &&& (s_vert(ps, i) ==> s_horiz(ps, j))
        }
}

/// Smallest x among the first `n` vertices (at least one).
pub open spec fn s_pt_min_x(ps: Seq<Point>, n: int) -> int
    decreases n,
{
    if n <= 1 {
        ps[0].x as int
    } else {
        s_min(s_pt_min_x(ps, n - 1), ps[n - 1].x as int)
    }
}

/// Largest x among the first `n` vertices (at least one).
pub open spec fn s_pt_max_x(ps: Seq<Point>, n: int) -> int
    decreases n,
{
    if n <= 1 {
        ps[0].x as int
    } else {
        s_max(s_pt_max_x(ps, n - 1), ps[n - 1].x as int)
    }
}

/// Smallest y among the first `n` vertices (at least one).
pub open spec fn s_pt_min_y(ps: Seq<Point>, n: int) -> int
    decreases n,
{
    if n <= 1 {
        ps[0].y as int
    } else {
        s_min(s_pt_min_y(ps, n - 1), ps[n - 1].y as int)
    }
}

/// Largest y among the first `n` vertices (at least one).
pub open spec fn s_pt_max_y(ps: Seq<Point>, n: int) -> int
    decreases n,
{
    if n <= 1 {
        ps[0].y as int
    } else {
        s_max(s_pt_max_y(ps, n - 1), ps[n - 1].y as int)
    }
}

/// A rounded edge length between two in-limit vertices is short.
proof fn lemma_dist_le(px: int, py: int, qx: int, qy: int)
    requires
        -(GEOM_LIMIT as int) <= px <= GEOM_LIMIT as int,
        -(GEOM_LIMIT as int) <= py <= GEOM_LIMIT as int,
        -(GEOM_LIMIT as int) <= qx <= GEOM_LIMIT as int,
        -(GEOM_LIMIT as int) <= qy <= GEOM_LIMIT as int,
    ensures
        0 <= s_dist(px, py, qx, qy) <= MAX_EDGE as int,
{
    let sq = (px - qx) * (px - qx) + (py - qy) * (py - qy);
    assert(0 <= sq <= 80_000_000_000_000_000_000_000int) by (nonlinear_arith)
        requires
            -200_000_000_000 <= px - qx <= 200_000_000_000,
            -200_000_000_000 <= py - qy <= 200_000_000_000,
            sq == (px - qx) * (px - qx) + (py - qy) * (py - qy),
    ;
    lemma_sqrt_floor_bounds(sq);
    let s = sqrt_floor(sq);
    assert(s <= MAX_EDGE as int) by (nonlinear_arith)
        requires
            s >= 0,
            s * s <= 80_000_000_000_000_000_000_000int,
            MAX_EDGE == 283_000_000_000i64,
    ;
}

/// Evaluates the circularity decision for a vertex ring.
pub fn is_circular(vertices: &Vec<Point>) -> (r: bool)
    ensures
        r == s_is_circular(vertices@),
{
    let n = vertices.len();
    if n < 3 || n > VERTEX_LIMIT {
        return false;
    }
    let mut i: usize = 0;
    while i < n
        invariant
            n == vertices@.len(),
            0 <= i <= n,
            s_in_geom_range(vertices@, i as int),
        decreases n - i,
    {
        let p = vertices[i];
        if p.x < -GEOM_LIMIT || p.x > GEOM_LIMIT || p.y < -GEOM_LIMIT || p.y > GEOM_LIMIT {
            return false;
        }
        i += 1;
    }

    let mut perim: i64 = 0;
    i = 0;
    while i < n
        invariant
            n == vertices@.len(),
            3 <= n <= VERTEX_LIMIT,
            0 <= i <= n,
            s_in_geom_range(vertices@, n as int),
            perim as int == s_perim_upto(vertices@, i as int),
            0 <= perim as int <= (i as int) * (MAX_EDGE as int),
        decreases n - i,
    {
        let j = if i + 1 == n {
            0
        } else {
            i + 1
        };
        let p = vertices[i];
        let q = vertices[j];
        proof {
            lemma_dist_le(p.x as int, p.y as int, q.x as int, q.y as int);
        }
        let d = cdist(p.x, p.y, q.x, q.y);
        perim = perim + d;
        i += 1;
    }

    if perim == 0 {
        return false;
    }

    let mut acc: i128 = 0;
    i = 0;
    while i < n
        invariant
            n == vertices@.len(),
            3 <= n <= VERTEX_LIMIT,
            0 <= i <= n,
            s_in_geom_range(vertices@, n as int),
            acc as int == s_area2_sum_upto(vertices@, i as int),
            -((i as int) * MAX_CROSS) <= acc as int <= (i as int) * MAX_CROSS,
        decreases n - i,
    {
        let j = if i + 1 == n {
            0
        } else {
            i + 1
        };
        let p = vertices[i];
        let q = vertices[j];
        proof {
            assert(-10_000_000_000_000_000_000_000int <= (p.x as int) * (q.y as int)
                <= 10_000_000_000_000_000_000_000int) by (nonlinear_arith)
                requires
                    -100_000_000_000 <= p.x as int <= 100_000_000_000,
                    -100_000_000_000 <= q.y as int <= 100_000_000_000,
            ;
            assert(-10_000_000_000_000_000_000_000int <= (p.y as int) * (q.x as int)
                <= 10_000_000_000_000_000_000_000int) by (nonlinear_arith)
                requires
                    -100_000_000_000 <= p.y as int <= 100_000_000_000,
                    -100_000_000_000 <= q.x as int <= 100_000_000_000,
            ;
        }
        let term = p.x as i128 * q.y as i128 - p.y as i128 * q.x as i128;
        acc = acc + term;
        i += 1;
    }

    let area2: i128 = if acc >= 0 {
        acc
    } else {
        -acc
    };
    proof {
        assert((n as int) * MAX_CROSS <= 2_000_000_000_000_000_000_000_000_000int);
        assert(0 <= area2 as int <= 2_000_000_000_000_000_000_000_000_000int);
    }

    let p_wide = perim as i128;
    proof {
        assert(p_wide * p_wide <= 900_000_000_000_000_000_000_000_000_000_000int)
            by (nonlinear_arith)
            requires
                0 <= p_wide <= 30_000_000_000_000_000i128,
        ;
    }
    let p2 = p_wide * p_wide;
    let band_lo: i128 = CIRC_LO_NUM * PI_DEN;
    let band_hi: i128 = CIRC_HI_NUM * PI_DEN;
    let area_mul: i128 = 2 * PI_NUM * CIRC_DEN;
    proof {
        assert(band_lo * p2 <= 200_000_000_000_000_000_000_000_000_000_000_000_000int)
            by (nonlinear_arith)
            requires
                0 <= p2 <= 900_000_000_000_000_000_000_000_000_000_000i128,
                band_lo == 11074i128,
        ;
        assert(band_hi * p2 <= 200_000_000_000_000_000_000_000_000_000_000_000_000int)
            by (nonlinear_arith)
            requires
                0 <= p2 <= 900_000_000_000_000_000_000_000_000_000_000i128,
                band_hi == 11526i128,
        ;
        assert(area_mul * area2 <= 200_000_000_000_000_000_000_000_000_000_000_000_000int)
            by (nonlinear_arith)
            requires
                0 <= area2 <= 2_000_000_000_000_000_000_000_000_000i128,
                area_mul == 71000i128,
        ;
    }
    let lo = band_lo * p2;
    let hi = band_hi * p2;
    let mid = area_mul * area2;
    lo <= mid && mid <= hi
}

/// Evaluates the rectangularity decision for a vertex ring.
pub fn is_rectangular(vertices: &Vec<Point>) -> (r: bool)
    ensures
        r == s_is_rectangular(vertices@),
{
    let n = vertices.len();
    if n < 3 {
        return false;
    }
    let mut i: usize = 0;
    while i < n
        invariant
            n == vertices@.len(),
            3 <= n,
            0 <= i <= n,
            forall|k: int|
                0 <= k < i ==> {
                    let j = s_ring_next(n as int, k);
                    &&& (#[trigger] s_horiz(vertices@, k)) || s_vert(vertices@, k)
                    &&& (s_horiz(vertices@, k) ==> s_vert(vertices@, j))
                    &&& (s_vert(vertices@, k) ==> s_horiz(vertices@, j))
                },
        decreases n - i,
    {
        let j = if i + 1 == n {
            0
        } else {
            i + 1
        };
        let jj = if j + 1 == n {
            0
        } else {
            j + 1
        };
        let p = vertices[i];
        let q = vertices[j];
        let s = vertices[jj];
        let horiz_i = p.y == q.y && p.x != q.x;
        let vert_i = p.x == q.x && p.y != q.y;
        let horiz_j = q.y == s.y && q.x != s.x;
        let vert_j = q.x == s.x && q.y != s.y;
        proof {
            assert(s_horiz(vertices@, i as int) == horiz_i);
            assert(s_vert(vertices@, i as int) == vert_i);
            assert(s_horiz(vertices@, j as int) == horiz_j);
            assert(s_vert(vertices@, j as int) == vert_j);
        }
        if !(horiz_i || vert_i) {
            return false;
        }
        if horiz_i && !vert_j {
            return false;
        }
        if vert_i && !horiz_j {
            return false;
        }
        i += 1;
    }
    true
}

/// The axis-aligned bounding box of a non-empty vertex list, as
/// `(min x, max x, min y, max y)`.
pub fn bounding_box(vertices: &Vec<Point>) -> (r: (i64, i64, i64, i64))
    requires
        vertices@.len() >= 1,
    ensures
        r.0 as int == s_pt_min_x(vertices@, vertices@.len() as int),
        r.1 as int == s_pt_max_x(vertices@, vertices@.len() as int),
        r.2 as int == s_pt_min_y(vertices@, vertices@.len() as int),
        r.3 as int == s_pt_max_y(vertices@, vertices@.len() as int),
{
    let n = vertices.len();
    let p0 = vertices[0];
    let mut min_x = p0.x;
    let mut max_x = p0.x;
    let mut min_y = p0.y;
    let mut max_y = p0.y;
    let mut i: usize = 1;
    while i < n
        invariant
            n == vertices@.len(),
            1 <= i <= n,
            min_x as int == s_pt_min_x(vertices@, i as int),
            max_x as int == s_pt_max_x(vertices@, i as int),
            min_y as int == s_pt_min_y(vertices@, i as int),
            max_y as int == s_pt_max_y(vertices@, i as int),
        decreases n - i,
    {
        let p = vertices[i];
        min_x = cmin(min_x, p.x);
        max_x = cmax(max_x, p.x);
        min_y = cmin(min_y, p.y);
        max_y = cmax(max_y, p.y);
        i += 1;
    }
    (min_x, max_x, min_y, max_y)
}

/// The ellipse a circular ring promotes to: its own bounding box, with the
/// source-to-output Y flip applied.
pub open spec fn s_promoted_ellipse(ps: Seq<Point>, e: Ellipse) -> bool {
    let n = ps.len() as int;
    &&& e.x as int == clamped(s_pt_min_x(ps, n))
    &&& e.y as int == clamped(-s_pt_max_y(ps, n))
    &&& e.width as int == s_sub(s_pt_max_x(ps, n), s_pt_min_x(ps, n))
    &&& e.height as int == s_sub(s_pt_max_y(ps, n), s_pt_min_y(ps, n))
    &&& e.antialias == false
    &&& e.style == StrokeWeight::Thin
}

/// Promotes a circular ring to its bounding-box ellipse.
pub fn try_ellipse(vertices: &Vec<Point>) -> (r: Option<Ellipse>)
    ensures
        r is Some <==> s_is_circular(vertices@),
        r matches Some(e) ==> s_promoted_ellipse(vertices@, e),
{
    if !is_circular(vertices) {
        return None;
    }
    let (min_x, max_x, min_y, max_y) = bounding_box(vertices);
    Some(
        Ellipse {
            x: crate::num::cclamp(min_x),
            y: cneg(max_y),
            width: csub(max_x, min_x),
            height: csub(max_y, min_y),
            antialias: false,
            style: StrokeWeight::Thin,
        },
    )
}

/// The rectangle a rectilinear ring promotes to: its own bounding box,
/// with the source-to-output Y flip applied and zero corner radii.
pub open spec fn s_promoted_rectangle(ps: Seq<Point>, rc: Rectangle) -> bool {
    let n = ps.len() as int;
    &&& rc.x as int == clamped(s_pt_min_x(ps, n))
    &&& rc.y as int == clamped(-s_pt_max_y(ps, n))
    &&& rc.rx == 0
    &&& rc.ry == 0
    &&& rc.width as int == s_sub(s_pt_max_x(ps, n), s_pt_min_x(ps, n))
    &&& rc.height as int == s_sub(s_pt_max_y(ps, n), s_pt_min_y(ps, n))
    &&& rc.antialias == false
    &&& rc.style == StrokeWeight::Thin
}

/// Promotes a rectilinear ring to its bounding-box rectangle.
pub fn try_rectangle(vertices: &Vec<Point>) -> (r: Option<Rectangle>)
    ensures
        r is Some <==> s_is_rectangular(vertices@),
        r matches Some(rc) ==> s_promoted_rectangle(vertices@, rc),
{
    if !is_rectangular(vertices) {
        return None;
    }
    let (min_x, max_x, min_y, max_y) = bounding_box(vertices);
    Some(
        Rectangle {
            x: crate::num::cclamp(min_x),
            y: cneg(max_y),
            rx: 0,
            ry: 0,
            width: csub(max_x, min_x),
            height: csub(max_y, min_y),
            antialias: false,
            style: StrokeWeight::Thin,
        },
    )
}

/// The rounded square root of a perfect square is exact.
proof fn lemma_sqrt_exact(k: int)
    requires
        k >= 0,
    ensures
        sqrt_floor(k * k) == k,
{
    assert(k * k >= 0 && (k + 1) * (k + 1) > k * k) by (nonlinear_arith)
        requires
            k >= 0,
    ;
    lemma_sqrt_floor_bounds(k * k);
    crate::num::lemma_sqrt_floor_unique(k * k, k);
}

/// An axis-aligned edge's rounded length is the exact travel along its
/// moving axis.
proof fn lemma_axis_dist(px: int, py: int, qx: int, qy: int)
    requires
        px == qx || py == qy,
    ensures
        py == qy ==> s_dist(px, py, qx, qy) == (if px >= qx {
            px - qx
        } else {
            qx - px
        }),
        px == qx ==> s_dist(px, py, qx, qy) == (if py >= qy {
            py - qy
        } else {
            qy - py
        }),
{
    if py == qy {
        let w = if px >= qx {
            px - qx
        } else {
            qx - px
        };
        assert((px - qx) * (px - qx) + (py - qy) * (py - qy) == w * w) by (nonlinear_arith)
            requires
                py == qy,
                w == (if px >= qx {
                    px - qx
                } else {
                    qx - px
                }),
        ;
        lemma_sqrt_exact(w);
    } else {
        let h = if py >= qy {
            py - qy
        } else {
            qy - py
        };
        assert((px - qx) * (px - qx) + (py - qy) * (py - qy) == h * h) by (nonlinear_arith)
            requires
                px == qx,
                h == (if py >= qy {
                    py - qy
                } else {
                    qy - py
                }),
        ;
        lemma_sqrt_exact(h);
    }
}

/// A four-vertex rectilinear ring is a true axis-aligned rectangle, and
/// its thinness ratio sits far below the circularity band: the two
/// classifier tests are mutually exclusive on quadrilaterals, so such a
/// ring always promotes to the rectangle, never to the ellipse.
pub proof fn lemma_axis_quad_not_circular(ps: Seq<Point>)
    requires
        ps.len() == 4,
        s_is_rectangular(ps),
    ensures
        !s_is_circular(ps),
{
    if s_is_circular(ps) {
        assert(s_horiz(ps, 0) || s_vert(ps, 0));
        assert(s_horiz(ps, 1) || s_vert(ps, 1));
        assert(s_horiz(ps, 2) || s_vert(ps, 2));
        assert(s_horiz(ps, 3) || s_vert(ps, 3));
        let x0 = ps[0].x as int;
        let y0 = ps[0].y as int;
        let x1 = ps[1].x as int;
        let y1 = ps[1].y as int;
        let x2 = ps[2].x as int;
        let y2 = ps[2].y as int;
        let x3 = ps[3].x as int;
        let y3 = ps[3].y as int;
        let d0 = s_dist(x0, y0, x1, y1);
        let d1 = s_dist(x1, y1, x2, y2);
        let d2 = s_dist(x2, y2, x3, y3);
        let d3 = s_dist(x3, y3, x0, y0);
        assert(s_perim_upto(ps, 0) == 0);
        assert(s_perim_upto(ps, 1) == d0);
        assert(s_perim_upto(ps, 2) == d0 + d1);
        assert(s_perim_upto(ps, 3) == d0 + d1 + d2);
        assert(s_perim(ps) == d0 + d1 + d2 + d3);
        let c0 = x0 * y1 - y0 * x1;
        let c1 = x1 * y2 - y1 * x2;
        let c2 = x2 * y3 - y2 * x3;
        let c3 = x3 * y0 - y3 * x0;
        assert(s_area2_sum_upto(ps, 0) == 0);
        assert(s_area2_sum_upto(ps, 1) == c0);
        assert(s_area2_sum_upto(ps, 2) == c0 + c1);
        assert(s_area2_sum_upto(ps, 3) == c0 + c1 + c2);
        assert(s_area2_sum_upto(ps, 4) == c0 + c1 + c2 + c3);
        lemma_axis_dist(x0, y0, x1, y1);
        lemma_axis_dist(x1, y1, x2, y2);
        lemma_axis_dist(x2, y2, x3, y3);
        lemma_axis_dist(x3, y3, x0, y0);
        if s_horiz(ps, 0) {
            // the ring is (q,a) (p,a) (p,b) (q,b)
            assert(s_vert(ps, 1));
            assert(s_horiz(ps, 2));
            assert(s_vert(ps, 3));
            let w = if x1 >= x0 {
                x1 - x0
            } else {
                x0 - x1
            };
            let h = if y2 >= y1 {
                y2 - y1
            } else {
                y1 - y2
            };
            assert(w >= 1 && h >= 1);
            assert(s_perim(ps) == 2 * w + 2 * h);
            assert(c0 + c1 + c2 + c3 == 2 * (x1 - x0) * (y2 - y1)) by (nonlinear_arith)
                requires
                    y1 == y0,
                    x2 == x1,
                    y3 == y2,
                    x0 == x3,
                    c0 == x0 * y1 - y0 * x1,
                    c1 == x1 * y2 - y1 * x2,
                    c2 == x2 * y3 - y2 * x3,
                    c3 == x3 * y0 - y3 * x0,
            ;
            assert(s_area2(ps) == 2 * w * h) by (nonlinear_arith)
                requires
                    s_area2(ps) == (if c0 + c1 + c2 + c3 >= 0 {
                        c0 + c1 + c2 + c3
                    } else {
                        -(c0 + c1 + c2 + c3)
                    }),
                    c0 + c1 + c2 + c3 == 2 * (x1 - x0) * (y2 - y1),
                    w == (if x1 >= x0 {
                        x1 - x0
                    } else {
                        x0 - x1
                    }),
                    h == (if y2 >= y1 {
                        y2 - y1
                    } else {
                        y1 - y2
                    }),
            ;
            assert(false) by (nonlinear_arith)
                requires
                    w >= 1,
                    h >= 1,
                    CIRC_LO_NUM * PI_DEN * ((2 * w + 2 * h) * (2 * w + 2 * h)) <= 2 * PI_NUM
                        * CIRC_DEN * (2 * w * h),
                    CIRC_LO_NUM == 98i128,
                    PI_DEN == 113i128,
                    PI_NUM == 355i128,
                    CIRC_DEN == 100i128,
            ;
        } else {
            // the ring is (a,q) (a,p) (b,p) (b,q), transposed
            assert(s_vert(ps, 0));
            assert(s_horiz(ps, 1));
            assert(s_vert(ps, 2));
            assert(s_horiz(ps, 3));
            let h = if y1 >= y0 {
                y1 - y0
            } else {
                y0 - y1
            };
            let w = if x2 >= x1 {
                x2 - x1
            } else {
                x1 - x2
            };
            assert(w >= 1 && h >= 1);
            assert(s_perim(ps) == 2 * w + 2 * h);
            assert(c0 + c1 + c2 + c3 == 2 * (x2 - x1) * (y0 - y1)) by (nonlinear_arith)
                requires
                    x1 == x0,
                    y2 == y1,
                    x3 == x2,
                    y0 == y3,
                    c0 == x0 * y1 - y0 * x1,
                    c1 == x1 * y2 - y1 * x2,
                    c2 == x2 * y3 - y2 * x3,
                    c3 == x3 * y0 - y3 * x0,
            ;
            assert(s_area2(ps) == 2 * w * h) by (nonlinear_arith)
                requires
                    s_area2(ps) == (if c0 + c1 + c2 + c3 >= 0 {
                        c0 + c1 + c2 + c3
                    } else {
                        -(c0 + c1 + c2 + c3)
                    }),
                    c0 + c1 + c2 + c3 == 2 * (x2 - x1) * (y0 - y1),
                    w == (if x2 >= x1 {
                        x2 - x1
                    } else {
                        x1 - x2
                    }),
                    h == (if y1 >= y0 {
                        y1 - y0
                    } else {
                        y0 - y1
                    }),
            ;
            assert(false) by (nonlinear_arith)
                requires
                    w >= 1,
                    h >= 1,
                    CIRC_LO_NUM * PI_DEN * ((2 * w + 2 * h) * (2 * w + 2 * h)) <= 2 * PI_NUM
                        * CIRC_DEN * (2 * w * h),
                    CIRC_LO_NUM == 98i128,
                    PI_DEN == 113i128,
                    PI_NUM == 355i128,
                    CIRC_DEN == 100i128,
            ;
        }
    }
}

} // verus!
