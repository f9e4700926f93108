//! Generic polygon shape: an ordered vertex list plus a closed flag.

use vstd::prelude::*;
use crate::num::{cadd, cmax, cmin, cmul, csub, s_max, s_min, s_mul_frac, Factor};
use crate::style::StrokeWeight;

verus! {

/// One polygon vertex in output coordinates.
#[derive(Clone, Copy, Debug, PartialEq, Eq, Structural)]
pub struct Coordinate {
    pub x: i64,
    pub y: i64,
}

/// A point in source coordinates, used for spline control data.
#[derive(Clone, Copy, Debug, PartialEq, Eq, Structural)]
pub struct Point {
    pub x: i64,
    pub y: i64,
}

impl Point {
    /// Bundles two micro-unit coordinates into a point.
    pub fn new(x: i64, y: i64) -> (r: Point)
        ensures
            r.x == x,
            r.y == y,
    {
        Point { x, y }
    }
}

/// Smallest x among the first `n` vertices; 0 when there are none.
pub open spec fn s_min_x(cs: Seq<Coordinate>, n: int) -> int
    decreases n,
{
    if n <= 0 {
        0
    } else if n == 1 {
        cs[0].x as int
    } else {
        s_min(s_min_x(cs, n - 1), cs[n - 1].x as int)
    }
}

/// Largest x among the first `n` vertices; 0 when there are none.
pub open spec fn s_max_x(cs: Seq<Coordinate>, n: int) -> int
    decreases n,
{
    if n <= 0 {
        0
    } else if n == 1 {
        cs[0].x as int
    } else {
        s_max(s_max_x(cs, n - 1), cs[n - 1].x as int)
    }
}

/// Smallest y among the first `n` vertices; 0 when there are none.
pub open spec fn s_min_y(cs: Seq<Coordinate>, n: int) -> int
    decreases n,
{
    if n <= 0 {
        0
    } else if n == 1 {
        cs[0].y as int
    } else {
        s_min(s_min_y(cs, n - 1), cs[n - 1].y as int)
    }
}

/// Largest y among the first `n` vertices; 0 when there are none.
pub open spec fn s_max_y(cs: Seq<Coordinate>, n: int) -> int
    decreases n,
{
    if n <= 0 {
        0
    } else if n == 1 {
        cs[0].y as int
    } else {
        s_max(s_max_y(cs, n - 1), cs[n - 1].y as int)
    }
}

/// A polygon in output coordinates.  Vertices keep their source order; the
/// closed flag records whether the source polyline was closed.
#[derive(Clone, Debug)]
pub struct Polygon {
    pub coordinates: Vec<Coordinate>,
    pub closed: bool,
    pub antialias: bool,
    pub style: StrokeWeight,
}

/// `b` is `a` with every vertex multiplied by the factors.
pub open spec fn s_polygon_scaled(a: Polygon, fx: Factor, fy: Factor, b: Polygon) -> bool {
    &&& b.coordinates@.len() == a.coordinates@.len()
    &&& forall|i: int|
        0 <= i < a.coordinates@.len() ==> {
            &&& (#[trigger] b.coordinates@[i]).x as int == s_mul_frac(
                a.coordinates@[i].x as int,
                fx.num as int,
                fx.den as int,
            )
            &&& b.coordinates@[i].y as int == s_mul_frac(
                a.coordinates@[i].y as int,
                fy.num as int,
                fy.den as int,
            )
        }
    &&& b.closed == a.closed
    &&& b.antialias == a.antialias
    &&& b.style == a.style
}

/// `b` is `a` with every vertex shifted by the offset: x moves with it,
/// y against it.
pub open spec fn s_polygon_offset(a: Polygon, ox: int, oy: int, b: Polygon) -> bool {
    &&& b.coordinates@.len() == a.coordinates@.len()
    &&& forall|i: int|
        0 <= i < a.coordinates@.len() ==> {
            &&& (#[trigger] b.coordinates@[i]).x as int == crate::num::s_add(
                a.coordinates@[i].x as int,
                ox,
            )
            &&& b.coordinates@[i].y as int == crate::num::s_sub(
                a.coordinates@[i].y as int,
                oy,
            )
        }
    &&& b.closed == a.closed
    &&& b.antialias == a.antialias
    &&& b.style == a.style
}

impl Polygon {
    /// Multiplies every vertex by the factors.
    pub fn scale(&mut self, fx: Factor, fy: Factor)
        requires
            fx.valid(),
            fy.valid(),
        ensures
            s_polygon_scaled(*old(self), fx, fy, *final(self)),
    {
        let n = self.coordinates.len();
        let mut i: usize = 0;
        while i < n
            invariant
                fx.valid(),
                fy.valid(),
                n == self.coordinates@.len(),
                n == old(self).coordinates@.len(),
                0 <= i <= n,
                forall|j: int|
                    i <= j < n ==> #[trigger] self.coordinates@[j] == old(self).coordinates@[j],
                forall|j: int|
                    0 <= j < i ==> {
                        &&& (#[trigger] self.coordinates@[j]).x as int == s_mul_frac(
                            old(self).coordinates@[j].x as int,
                            fx.num as int,
                            fx.den as int,
                        )
                        &&& self.coordinates@[j].y as int == s_mul_frac(
                            old(self).coordinates@[j].y as int,
                            fy.num as int,
                            fy.den as int,
                        )
                    },
                self.closed == old(self).closed,
                self.antialias == old(self).antialias,
                self.style == old(self).style,
            decreases n - i,
        {
            let c = self.coordinates[i];
            let nc = Coordinate { x: cmul(c.x, fx), y: cmul(c.y, fy) };
            self.coordinates.set(i, nc);
            i += 1;
        }
    }

    /// Shifts every vertex by an offset: x moves with it, y against it.
    pub fn offset(&mut self, ox: i64, oy: i64)
        ensures
            s_polygon_offset(*old(self), ox as int, oy as int, *final(self)),
    {
        let n = self.coordinates.len();
        let mut i: usize = 0;
        while i < n
            invariant
                n == self.coordinates@.len(),
                n == old(self).coordinates@.len(),
                0 <= i <= n,
                forall|j: int|
                    i <= j < n ==> #[trigger] self.coordinates@[j] == old(self).coordinates@[j],
                forall|j: int|
                    0 <= j < i ==> {
                        &&& (#[trigger] self.coordinates@[j]).x as int == crate::num::s_add(
                            old(self).coordinates@[j].x as int,
                            ox as int,
                        )
                        &&& self.coordinates@[j].y as int == crate::num::s_sub(
                            old(self).coordinates@[j].y as int,
                            oy as int,
                        )
                    },
                self.closed == old(self).closed,
                self.antialias == old(self).antialias,
                self.style == old(self).style,
            decreases n - i,
        {
            let c = self.coordinates[i];
            let nc = Coordinate { x: cadd(c.x, ox), y: csub(c.y, oy) };
            self.coordinates.set(i, nc);
            i += 1;
        }
    }

    /// Smallest vertex x; 0 for an empty polygon.
    pub fn left_bound(&self) -> (r: i64)
        ensures
            r as int == s_min_x(self.coordinates@, self.coordinates@.len() as int),
    {
        let n = self.coordinates.len();
        if n == 0 {
            return 0;
        }
        let mut m = self.coordinates[0].x;
        let mut i: usize = 1;
        while i < n
            invariant
                n == self.coordinates@.len(),
                1 <= i <= n,
                m as int == s_min_x(self.coordinates@, i as int),
            decreases n - i,
        {
            m = cmin(m, self.coordinates[i].x);
            i += 1;
        }
        m
    }

    /// Largest vertex x; 0 for an empty polygon.
    pub fn right_bound(&self) -> (r: i64)
        ensures
            r as int == s_max_x(self.coordinates@, self.coordinates@.len() as int),
    {
        let n = self.coordinates.len();
        if n == 0 {
            return 0;
        }
        let mut m = self.coordinates[0].x;
        let mut i: usize = 1;
        while i < n
            invariant
                n == self.coordinates@.len(),
                1 <= i <= n,
                m as int == s_max_x(self.coordinates@, i as int),
            decreases n - i,
        {
            m = cmax(m, self.coordinates[i].x);
            i += 1;
        }
        m
    }

    /// Smallest vertex y; 0 for an empty polygon.
    pub fn top_bound(&self) -> (r: i64)
        ensures
            r as int == s_min_y(self.coordinates@, self.coordinates@.len() as int),
    {
        let n = self.coordinates.len();
        if n == 0 {
            return 0;
        }
        let mut m = self.coordinates[0].y;
        let mut i: usize = 1;
        while i < n
            invariant
                n == self.coordinates@.len(),
                1 <= i <= n,
                m as int == s_min_y(self.coordinates@, i as int),
            decreases n - i,
        {
            m = cmin(m, self.coordinates[i].y);
            i += 1;
        }
        m
    }

    /// Largest vertex y; 0 for an empty polygon.
    pub fn bot_bound(&self) -> (r: i64)
        ensures
            r as int == s_max_y(self.coordinates@, self.coordinates@.len() as int),
    {
        let n = self.coordinates.len();
        if n == 0 {
            return 0;
        }
        let mut m = self.coordinates[0].y;
        let mut i: usize = 1;
        while i < n
            invariant
                n == self.coordinates@.len(),
                1 <= i <= n,
                m as int == s_max_y(self.coordinates@, i as int),
            decreases n - i,
        {
            m = cmax(m, self.coordinates[i].y);
            i += 1;
        }
        m
    }
}

} // verus!
