//! B-spline tessellation: evaluates a curve at evenly spaced parameters
//! across its knot domain, producing a polyline approximation.
//!
//! Evaluation is the de Boor recurrence carried out in exact integer
//! arithmetic: every blend is a convex combination whose weights are
//! clamped into range and whose division rounds down, so each computed
//! point provably stays inside the axis-aligned bounding box of the
//! control points.  Inputs are forced into the representable coordinate
//! range first, which keeps every intermediate product inside 128 bits.

use vstd::prelude::*;
use crate::classify::{s_pt_max_x, s_pt_max_y, s_pt_min_x, s_pt_min_y};
use crate::num::{clamped, COORD_MAX, COORD_MIN};
use crate::polygon::Point;

verus! {

/// A value forced into the representable coordinate range.
pub open spec fn s_cl(x: int) -> int {
    clamped(x)
}

/// The control points, each coordinate forced into range.
pub open spec fn s_cl_pts(ps: Seq<Point>) -> Seq<Point> {
    Seq::new(ps.len(), |i: int| Point { x: s_cl(ps[i].x as int) as i64, y: s_cl(ps[i].y as int) as i64 })
}

/// The knot values, each forced into range.
pub open spec fn s_cl_knots(ks: Seq<i64>) -> Seq<i64> {
    Seq::new(ks.len(), |i: int| s_cl(ks[i] as int) as i64)
}

/// One convex blend of the de Boor recurrence: weight `w` out of `den`,
/// clamped into `[0, den]`, rounding down; a degenerate span keeps the
/// earlier value.
pub open spec fn s_combine(a: int, b: int, w: int, den: int) -> int {
    if den <= 0 {
        a
    } else {
        let wc = if w < 0 {
            0
        } else if w > den {
            den
        } else {
            w
        };
        (a * (den - wc) + b * wc) / den
    }
}

/// Row `r` of the de Boor triangle for the span `k`, parameter `t`,
/// degree `d`: a sequence of `d + 1` working coordinate pairs.
pub open spec fn s_row(
    ps: Seq<Point>,
    ks: Seq<i64>,
    d: int,
    k: int,
    t: int,
    r: int,
) -> Seq<(int, int)>
    decreases r,
{
    if r <= 0 {
        Seq::new((d + 1) as nat, |j: int| (ps[j + k - d].x as int, ps[j + k - d].y as int))
    } else {
        let prev = s_row(ps, ks, d, k, t, r - 1);
        Seq::new(
            (d + 1) as nat,
            |j: int|
                if j < r {
                    prev[j]
                } else {
                    let lo = ks[j + k - d] as int;
                    let hi = ks[j + 1 + k - r] as int;
                    (
                        s_combine(prev[j - 1].0, prev[j].0, t - lo, hi - lo),
                        s_combine(prev[j - 1].1, prev[j].1, t - lo, hi - lo),
                    )
                },
        )
    }
}

/// The curve point for span `k` at parameter `t`: the apex of the
/// triangle.
pub open spec fn s_eval(ps: Seq<Point>, ks: Seq<i64>, d: int, k: int, t: int) -> (int, int) {
    s_row(ps, ks, d, k, t, d)[d]
}

/// The span search: the largest index in `[d, hi]` whose knot does not
/// exceed `t`, or `d` if none does.
pub open spec fn s_seg(ks: Seq<i64>, d: int, t: int, hi: int) -> int
    decreases hi - d,
{
    if hi <= d {
        d
    } else if ks[hi] as int <= t {
        hi
    } else {
        s_seg(ks, d, t, hi - 1)
    }
}

/// Whether the degree, control-point count, knot count and step count
/// form an evaluable curve description.
pub open spec fn s_tess_structural_ok(d: int, npts: int, nknots: int, steps: int) -> bool {
    &&& npts >= d + 1
    &&& nknots == npts + d + 1
    &&& steps >= 1
}

/// The evenly spaced parameter step for a domain of width `range`:
/// the rounded-up quotient, at least one micro-unit.
pub open spec fn s_tess_step(range: int, steps: int) -> int
    recommends
        range > 0,
        steps >= 1,
{
    (range + steps - 1) / steps
}

/// How many parameters the sweep visits before reaching the domain end.
pub open spec fn s_tess_count(range: int, steps: int) -> int
    recommends
        steps >= 1,
{
    if range <= 0 {
        0
    } else {
        let st = s_tess_step(range, steps);
        (range + st - 1) / st
    }
}

/// Start of the knot domain, over the clamped knots.
pub open spec fn s_domain_start(ks: Seq<i64>, d: int) -> int {
    s_cl_knots(ks)[d] as int
}

/// End of the knot domain, over the clamped knots.
pub open spec fn s_domain_end(ks: Seq<i64>, d: int) -> int {
    s_cl_knots(ks)[ks.len() - 1 - d] as int
}

/// The tessellation succeeds: the description is well formed and the
/// sweep yields at least two points.
pub open spec fn s_tess_ok(d: int, ps: Seq<Point>, ks: Seq<i64>, steps: int) -> bool {
    &&& s_tess_structural_ok(d, ps.len() as int, ks.len() as int, steps)
    &&& s_tess_count(s_domain_end(ks, d) - s_domain_start(ks, d), steps) >= 2
}

/// The parameter of sweep index `i`.
pub open spec fn s_tess_param(ks: Seq<i64>, d: int, steps: int, i: int) -> int {
    let t0 = s_domain_start(ks, d);
    let t1 = s_domain_end(ks, d);
    t0 + i * s_tess_step(t1 - t0, steps)
}

/// The point of sweep index `i`.
pub open spec fn s_tess_point(ps: Seq<Point>, ks: Seq<i64>, d: int, steps: int, i: int) -> (
    int,
    int,
) {
    let cps = s_cl_pts(ps);
    let cks = s_cl_knots(ks);
    let t = s_tess_param(ks, d, steps, i);
    s_eval(cps, cks, d, s_seg(cks, d, t, ps.len() - 1), t)
}

/// Floor division of nonnegative-by-positive equals the built-in.
proof fn lemma_fdiv_neg(x: int, den: int)
    requires
        x < 0,
        den > 0,
    ensures
        x / den == -((-x + den - 1) / den),
{
    assert(x / den == -((-x + den - 1) / den)) by (nonlinear_arith)
        requires
            x < 0,
            den > 0,
    ;
}

/// Floor division of a wide signed value by a positive divisor.
fn fdiv128(x: i128, den: i128) -> (r: i128)
    requires
        den > 0,
        -0x4000_0000_0000_0000_0000_0000_0000_0000 + den < x
            < 0x4000_0000_0000_0000_0000_0000_0000_0000,
    ensures
        r as int == (x as int) / (den as int),
{
    if x >= 0 {
        let q = (x as u128) / (den as u128);
        proof {
            assert((x as int) / (den as int) <= x as int) by (nonlinear_arith)
                requires
                    x as int >= 0,
                    den as int > 0,
            ;
        }
        q as i128
    } else {
        let m = -x;
        let q = ((m + den - 1) as u128) / (den as u128);
        proof {
            lemma_fdiv_neg(x as int, den as int);
            assert((m as int + den as int - 1) / (den as int) <= m as int + den as int - 1)
                by (nonlinear_arith)
                requires
                    m as int + den as int - 1 >= 0,
                    den as int > 0,
            ;
        }
        -(q as i128)
    }
}

/// The convex blend stays between its operands' bounds.
proof fn lemma_combine_bounds(a: int, b: int, w: int, den: int, lo: int, hi: int)
    requires
        lo <= a <= hi,
        lo <= b <= hi,
    ensures
        lo <= s_combine(a, b, w, den) <= hi,
{
    if den <= 0 {
    } else {
        let wc = if w < 0 {
            0int
        } else if w > den {
            den
        } else {
            w
        };
        let x = a * (den - wc) + b * wc;
        assert(lo * den <= x <= hi * den) by (nonlinear_arith)
            requires
                0 <= wc <= den,
                lo <= a <= hi,
                lo <= b <= hi,
                x == a * (den - wc) + b * wc,
        ;
        assert(lo <= x / den <= hi) by (nonlinear_arith)
            requires
                den > 0,
                lo * den <= x <= hi * den,
        ;
    }
}

/// One exec convex blend, for in-range operands.
fn combine(a: i64, b: i64, w: i64, den: i64) -> (r: i64)
    requires
        COORD_MIN <= a <= COORD_MAX,
        COORD_MIN <= b <= COORD_MAX,
        -4_000_000_000_000_000_000 <= w <= 4_000_000_000_000_000_000,
        -4_000_000_000_000_000_000 <= den <= 4_000_000_000_000_000_000,
    ensures
        r as int == s_combine(a as int, b as int, w as int, den as int),
        COORD_MIN as int <= r as int <= COORD_MAX as int,
    {
    proof {
        lemma_combine_bounds(
            a as int,
            b as int,
            w as int,
            den as int,
            COORD_MIN as int,
            COORD_MAX as int,
        );
    }
    if den <= 0 {
        a
    } else {
        let wc = if w < 0 {
            0
        } else if w > den {
            den
        } else {
            w
        };
        proof {
            assert(-4_000_000_000_000_000_000_000_000_000_000_000_000
                <= (a as int) * ((den - wc) as int)
                <= 4_000_000_000_000_000_000_000_000_000_000_000_000int) by (nonlinear_arith)
                requires
                    -1_000_000_000_000_000_000 <= a as int <= 1_000_000_000_000_000_000,
                    -4_000_000_000_000_000_000 <= (den - wc) as int <= 4_000_000_000_000_000_000,
            ;
            assert(-4_000_000_000_000_000_000_000_000_000_000_000_000
                <= (b as int) * (wc as int)
                <= 4_000_000_000_000_000_000_000_000_000_000_000_000int) by (nonlinear_arith)
                requires
                    -1_000_000_000_000_000_000 <= b as int <= 1_000_000_000_000_000_000,
                    -4_000_000_000_000_000_000 <= wc as int <= 4_000_000_000_000_000_000,
            ;
        }
        let x = a as i128 * (den - wc) as i128 + b as i128 * wc as i128;
        let q = fdiv128(x, den as i128);
        q as i64
    }
}

/// Every vertex among the first `n` lies inside its own bounding box.
proof fn lemma_pt_bbox_covers(ps: Seq<Point>, n: int, idx: int)
    requires
        0 <= idx < n,
        n <= ps.len(),
    ensures
        s_pt_min_x(ps, n) <= ps[idx].x as int <= s_pt_max_x(ps, n),
        s_pt_min_y(ps, n) <= ps[idx].y as int <= s_pt_max_y(ps, n),
    decreases n,
{
    if idx < n - 1 {
        lemma_pt_bbox_covers(ps, n - 1, idx);
    }
}

/// All coordinates of the first `n` vertices are in the representable
/// range.
pub open spec fn s_pts_in_range(ps: Seq<Point>) -> bool {
    forall|i: int|
        0 <= i < ps.len() ==> {
            &&& COORD_MIN as int <= (#[trigger] ps[i]).x as int <= COORD_MAX as int
            &&& COORD_MIN as int <= ps[i].y as int <= COORD_MAX as int
        }
}

/// All knot values are in the representable range.
pub open spec fn s_knots_in_range(ks: Seq<i64>) -> bool {
    forall|i: int| 0 <= i < ks.len() ==> COORD_MIN as int <= (#[trigger] ks[i]) as int <= COORD_MAX as int
}

/// Every entry of every de Boor row stays inside the control points'
/// bounding box.
proof fn lemma_row_in_bbox(ps: Seq<Point>, ks: Seq<i64>, d: int, k: int, t: int, r: int)
    requires
        0 <= r <= d,
        d <= k < ps.len(),
    ensures
        forall|j: int|
            0 <= j <= d ==> {
                let e = #[trigger] s_row(ps, ks, d, k, t, r)[j];
                &&& s_pt_min_x(ps, ps.len() as int) <= e.0 <= s_pt_max_x(ps, ps.len() as int)
                &&& s_pt_min_y(ps, ps.len() as int) <= e.1 <= s_pt_max_y(ps, ps.len() as int)
            },
    decreases r,
{
    let n = ps.len() as int;
    if r == 0 {
        assert forall|j: int| 0 <= j <= d implies {
            let e = #[trigger] s_row(ps, ks, d, k, t, r)[j];
            &&& s_pt_min_x(ps, n) <= e.0 <= s_pt_max_x(ps, n)
            &&& s_pt_min_y(ps, n) <= e.1 <= s_pt_max_y(ps, n)
        } by {
            lemma_pt_bbox_covers(ps, n, j + k - d);
        }
    } else {
        lemma_row_in_bbox(ps, ks, d, k, t, r - 1);
        let prev = s_row(ps, ks, d, k, t, r - 1);
        assert forall|j: int| 0 <= j <= d implies {
            let e = #[trigger] s_row(ps, ks, d, k, t, r)[j];
            &&& s_pt_min_x(ps, n) <= e.0 <= s_pt_max_x(ps, n)
            &&& s_pt_min_y(ps, n) <= e.1 <= s_pt_max_y(ps, n)
        } by {
            if j >= r {
                let lo = ks[j + k - d] as int;
                let hi = ks[j + 1 + k - r] as int;
                lemma_combine_bounds(
                    prev[j - 1].0,
                    prev[j].0,
                    t - lo,
                    hi - lo,
                    s_pt_min_x(ps, n),
                    s_pt_max_x(ps, n),
                );
                lemma_combine_bounds(
                    prev[j - 1].1,
                    prev[j].1,
                    t - lo,
                    hi - lo,
                    s_pt_min_y(ps, n),
                    s_pt_max_y(ps, n),
                );
            }
        }
    }
}

/// The bounding box of in-range vertices is itself in range.
proof fn lemma_bbox_in_range(ps: Seq<Point>, n: int)
    requires
        s_pts_in_range(ps),
        1 <= n <= ps.len(),
    ensures
        COORD_MIN as int <= s_pt_min_x(ps, n) <= COORD_MAX as int,
        COORD_MIN as int <= s_pt_max_x(ps, n) <= COORD_MAX as int,
        COORD_MIN as int <= s_pt_min_y(ps, n) <= COORD_MAX as int,
        COORD_MIN as int <= s_pt_max_y(ps, n) <= COORD_MAX as int,
    decreases n,
{
    if n > 1 {
        lemma_bbox_in_range(ps, n - 1);
    }
}

/// Evaluates the curve at one parameter by the de Boor recurrence.
fn de_boor(pts: &Vec<Point>, ks: &Vec<i64>, d: usize, k: usize, t: i64) -> (r: Point)
    requires
        pts@.len() >= d + 1,
        ks@.len() == pts@.len() + d + 1,
        d <= k < pts@.len(),
        s_pts_in_range(pts@),
        s_knots_in_range(ks@),
        COORD_MIN as int <= t as int <= COORD_MAX as int,
    ensures
        r.x as int == s_eval(pts@, ks@, d as int, k as int, t as int).0,
        r.y as int == s_eval(pts@, ks@, d as int, k as int, t as int).1,
        s_pt_min_x(pts@, pts@.len() as int) <= r.x as int <= s_pt_max_x(pts@, pts@.len() as int),
        s_pt_min_y(pts@, pts@.len() as int) <= r.y as int <= s_pt_max_y(pts@, pts@.len() as int),
{
    let n = pts.len();
    let m = ks.len();
    let dl = d + 1;
    let mut dx: Vec<i64> = Vec::new();
    let mut dy: Vec<i64> = Vec::new();
    let mut j: usize = 0;
    while j < dl
        invariant
            n == pts@.len(),
            dl == d + 1,
            n >= d + 1,
            d <= k < n,
            s_pts_in_range(pts@),
            0 <= j <= dl,
            dx@.len() == j,
            dy@.len() == j,
            forall|i: int|
                #![trigger dx@[i]]
                #![trigger dy@[i]]
                0 <= i < j ==> {
                    &&& dx@[i] as int == s_row(
                        pts@,
                        ks@,
                        d as int,
                        k as int,
                        t as int,
                        0,
                    )[i].0
                    &&& dy@[i] as int == s_row(pts@, ks@, d as int, k as int, t as int, 0)[i].1
                },
        decreases dl - j,
    {
        let p = pts[k - d + j];
        proof {
            let row0 = s_row(pts@, ks@, d as int, k as int, t as int, 0);
            assert(row0[j as int] == (pts@[j + k - d].x as int, pts@[j + k - d].y as int));
        }
        dx.push(p.x);
        dy.push(p.y);
        j += 1;
    }

    let mut r: usize = 1;
    while r < dl
        invariant
            n == pts@.len(),
            m == ks@.len(),
            dl == d + 1,
            n >= d + 1,
            ks@.len() == n + d + 1,
            d <= k < n,
            s_pts_in_range(pts@),
            s_knots_in_range(ks@),
            COORD_MIN as int <= t as int <= COORD_MAX as int,
            1 <= r <= dl,
            dx@.len() == dl,
            dy@.len() == dl,
            forall|i: int|
                #![trigger dx@[i]]
                #![trigger dy@[i]]
                0 <= i <= d ==> {
                    &&& dx@[i] as int == s_row(
                        pts@,
                        ks@,
                        d as int,
                        k as int,
                        t as int,
                        r - 1,
                    )[i].0
                    &&& dy@[i] as int == s_row(pts@, ks@, d as int, k as int, t as int, r - 1)[i].1
                },
        decreases dl - r,
    {
        let mut jj: usize = 0;
        while jj < dl - r
            invariant
                n == pts@.len(),
                m == ks@.len(),
                dl == d + 1,
                n >= d + 1,
                ks@.len() == n + d + 1,
                d <= k < n,
                s_pts_in_range(pts@),
                s_knots_in_range(ks@),
                COORD_MIN as int <= t as int <= COORD_MAX as int,
                1 <= r <= d,
                0 <= jj <= dl - r,
                dx@.len() == dl,
                dy@.len() == dl,
                forall|i: int|
                    #![trigger dx@[i]]
                    #![trigger dy@[i]]
                    d - jj < i <= d ==> {
                        &&& dx@[i] as int == s_row(
                            pts@,
                            ks@,
                            d as int,
                            k as int,
                            t as int,
                            r as int,
                        )[i].0
                        &&& dy@[i] as int == s_row(
                            pts@,
                            ks@,
                            d as int,
                            k as int,
                            t as int,
                            r as int,
                        )[i].1
                    },
                forall|i: int|
                    #![trigger dx@[i]]
                    #![trigger dy@[i]]
                    0 <= i <= d - jj ==> {
                        &&& dx@[i] as int == s_row(
                            pts@,
                            ks@,
                            d as int,
                            k as int,
                            t as int,
                            r - 1,
                        )[i].0
                        &&& dy@[i] as int == s_row(
                            pts@,
                            ks@,
                            d as int,
                            k as int,
                            t as int,
                            r - 1,
                        )[i].1
                    },
            decreases dl - r - jj,
        {
            let j2 = d - jj;
            proof {
                lemma_row_in_bbox(pts@, ks@, d as int, k as int, t as int, (r - 1) as int);
                lemma_bbox_in_range(pts@, pts@.len() as int);
            }
            let lo = ks[k - d + j2];
            let hi = ks[k + j2 + 1 - r];
            let ax = dx[j2 - 1];
            let bx = dx[j2];
            let ay = dy[j2 - 1];
            let by_ = dy[j2];
            let w = t - lo;
            let den = hi - lo;
            let nx = combine(ax, bx, w, den);
            let ny = combine(ay, by_, w, den);
            dx.set(j2, nx);
            dy.set(j2, ny);
            jj += 1;
        }
        r += 1;
    }
    proof {
        lemma_row_in_bbox(pts@, ks@, d as int, k as int, t as int, d as int);
    }
    Point { x: dx[d], y: dy[d] }
}

/// The sweep visits at least one and at most `steps` parameters.
proof fn lemma_count_range(range: int, steps: int)
    requires
        range >= 1,
        steps >= 1,
    ensures
        1 <= s_tess_count(range, steps) <= steps,
        s_tess_step(range, steps) >= 1,
{
    let st = s_tess_step(range, steps);
    assert(st >= 1 && st * steps >= range) by (nonlinear_arith)
        requires
            st == (range + steps - 1) / steps,
            range >= 1,
            steps >= 1,
    ;
    assert(1 <= (range + st - 1) / st <= steps) by (nonlinear_arith)
        requires
            st >= 1,
            steps >= 1,
            range >= 1,
            st * steps >= range,
    ;
}

/// Every sweep parameter stays strictly inside the domain.
proof fn lemma_param_bound(range: int, steps: int, i: int)
    requires
        range >= 1,
        steps >= 1,
        0 <= i < s_tess_count(range, steps),
    ensures
        0 <= i * s_tess_step(range, steps) < range,
{
    let st = s_tess_step(range, steps);
    assert(st >= 1) by (nonlinear_arith)
        requires
            st == (range + steps - 1) / steps,
            range >= 1,
            steps >= 1,
    ;
    let cnt = s_tess_count(range, steps);
    assert((cnt - 1) * st < range) by (nonlinear_arith)
        requires
            cnt == (range + st - 1) / st,
            st >= 1,
            range >= 1,
    ;
    assert(0 <= i * st <= (cnt - 1) * st) by (nonlinear_arith)
        requires
            0 <= i <= cnt - 1,
            st >= 1,
    ;
}

/// Tessellates a curve into a polyline: evaluates it at evenly spaced
/// parameters across the knot domain, `None` when the description is
/// malformed or the sweep would yield fewer than two points.
pub fn tessellate(degree: u32, control_points: &Vec<Point>, knots: &Vec<i64>, steps: u32) -> (r:
    Option<Vec<Point>>)
    ensures
        r is Some <==> s_tess_ok(degree as int, control_points@, knots@, steps as int),
        r matches Some(out) ==> {
            let cnt = s_tess_count(
                s_domain_end(knots@, degree as int) - s_domain_start(knots@, degree as int),
                steps as int,
            );
            &&& out@.len() == cnt
            &&& cnt <= steps
            &&& forall|i: int|
                #![trigger out@[i]]
                0 <= i < cnt ==> {
                    let p = s_tess_point(
                        control_points@,
                        knots@,
                        degree as int,
                        steps as int,
                        i,
                    );
                    &&& out@[i].x as int == p.0
                    &&& out@[i].y as int == p.1
                    &&& s_pt_min_x(s_cl_pts(control_points@), control_points@.len() as int)
                        <= out@[i].x as int <= s_pt_max_x(
                        s_cl_pts(control_points@),
                        control_points@.len() as int,
                    )
                    &&& s_pt_min_y(s_cl_pts(control_points@), control_points@.len() as int)
                        <= out@[i].y as int <= s_pt_max_y(
                        s_cl_pts(control_points@),
                        control_points@.len() as int,
                    )
                }
        },
{
    let d = degree as usize;
    let npts = control_points.len();
    let nknots = knots.len();
    if steps == 0 || d >= npts || nknots <= npts || nknots - npts - 1 != d {
        return None;
    }

    let mut cpts: Vec<Point> = Vec::new();
    let mut i: usize = 0;
    while i < npts
        invariant
            npts == control_points@.len(),
            0 <= i <= npts,
            cpts@.len() == i,
            forall|j: int| 0 <= j < i ==> #[trigger] cpts@[j] == s_cl_pts(control_points@)[j],
        decreases npts - i,
    {
        let p = control_points[i];
        cpts.push(Point { x: crate::num::cclamp(p.x), y: crate::num::cclamp(p.y) });
        i += 1;
    }
    proof {
        assert(cpts@ =~= s_cl_pts(control_points@));
    }

    let mut cks: Vec<i64> = Vec::new();
    i = 0;
    while i < nknots
        invariant
            nknots == knots@.len(),
            0 <= i <= nknots,
            cks@.len() == i,
            forall|j: int| 0 <= j < i ==> #[trigger] cks@[j] == s_cl_knots(knots@)[j],
        decreases nknots - i,
    {
        cks.push(crate::num::cclamp(knots[i]));
        i += 1;
    }
    proof {
        assert(cks@ =~= s_cl_knots(knots@));
        assert(s_pts_in_range(cpts@));
        assert(s_knots_in_range(cks@));
    }

    let t0 = cks[d];
    let t1 = cks[nknots - 1 - d];
    if t1 <= t0 {
        return None;
    }
    let range = t1 - t0;
    let ghost grange = range as int;
    proof {
        lemma_count_range(range as int, steps as int);
    }
    let stepu = ((range as u64) + (steps as u64) - 1) / (steps as u64);
    let stepv = stepu as i64;
    proof {
        assert(stepv as int == s_tess_step(range as int, steps as int));
    }
    let cntu = ((range as u64) + (stepu) - 1) / stepu;
    proof {
        assert(cntu as int == s_tess_count(range as int, steps as int));
    }
    if cntu < 2 {
        return None;
    }
    let count = cntu as usize;

    let mut out: Vec<Point> = Vec::new();
    let mut idx: usize = 0;
    while idx < count
        invariant
            npts == control_points@.len(),
            nknots == knots@.len(),
            d == degree as int,
            npts >= d + 1,
            nknots == npts + d + 1,
            steps >= 1,
            cpts@ == s_cl_pts(control_points@),
            cks@ == s_cl_knots(knots@),
            cpts@.len() == npts,
            cks@.len() == nknots,
            s_pts_in_range(cpts@),
            s_knots_in_range(cks@),
            t0 as int == s_domain_start(knots@, degree as int),
            t1 as int == s_domain_end(knots@, degree as int),
            range == t1 - t0,
            range >= 1,
            COORD_MIN as int <= t0 as int <= COORD_MAX as int,
            COORD_MIN as int <= t1 as int <= COORD_MAX as int,
            stepv as int == s_tess_step(range as int, steps as int),
            stepv >= 1,
            count == s_tess_count(range as int, steps as int),
            count >= 2,
            0 <= idx <= count,
            out@.len() == idx,
            forall|i2: int|
                #![trigger out@[i2]]
                0 <= i2 < idx ==> {
                    let p = s_tess_point(
                        control_points@,
                        knots@,
                        degree as int,
                        steps as int,
                        i2,
                    );
                    &&& out@[i2].x as int == p.0
                    &&& out@[i2].y as int == p.1
                    &&& s_pt_min_x(cpts@, npts as int) <= out@[i2].x as int <= s_pt_max_x(
                        cpts@,
                        npts as int,
                    )
                    &&& s_pt_min_y(cpts@, npts as int) <= out@[i2].y as int <= s_pt_max_y(
                        cpts@,
                        npts as int,
                    )
                },
        decreases count - idx,
    {
        proof {
            lemma_param_bound(range as int, steps as int, idx as int);
        }
        let off = (idx as i64) * stepv;
        let t = t0 + off;

        let mut kk: usize = npts - 1;
        while kk > d && cks[kk] > t
            invariant
                cks@.len() == nknots,
                nknots == npts + d + 1,
                npts >= d + 1,
                d <= kk <= npts - 1,
                s_seg(cks@, d as int, t as int, npts - 1) == s_seg(cks@, d as int, t as int, kk as int),
            decreases kk,
        {
            kk -= 1;
        }

        let p = de_boor(&cpts, &cks, d, kk, t);
        out.push(p);
        idx += 1;
    }
    Some(out)
}

} // verus!
