//! The shape tree: one drawable shape per leaf, with groups (expanded block
//! instances, multi-segment constructs) owning their children exclusively.

use vstd::prelude::*;
use crate::arc::{s_arc_scaled, Arc};
use crate::dynamictext::{s_dtext_scaled, DynamicText};
use crate::ellipse::{s_ellipse_scaled, Ellipse};
use crate::line::{s_line_scaled, Line};
use crate::num::{cmin, cmax, s_min, s_max, Factor};
use crate::polygon::{s_polygon_scaled, Polygon};
use crate::rectangle::{s_rectangle_scaled, Rectangle};
use crate::text::{s_text_scaled, Text};

verus! {

/// One node of the shape tree.
#[derive(Debug)]
pub enum Objects {
    Arc(Arc),
    Ellipse(Ellipse),
    Rectangle(Rectangle),
    Polygon(Polygon),
    DynamicText(DynamicText),
    Text(Text),
    Line(Line),
    Group(Vec<Objects>),
}

/// Smallest x reached by a node; a group takes the smallest over its
/// children and an empty group answers 0.
pub open spec fn s_obj_left(o: Objects) -> int
    decreases o, 1int,
{
    match o {
        Objects::Arc(a) => a.x as int,
        Objects::Ellipse(e) => e.x as int,
        Objects::Rectangle(r) => r.x as int,
        Objects::Polygon(p) => crate::polygon::s_min_x(p.coordinates@, p.coordinates@.len() as int),
        Objects::DynamicText(d) => d.x as int,
        Objects::Text(t) => t.x as int,
        Objects::Line(l) => s_min(l.x1 as int, l.x2 as int),
        Objects::Group(v) => s_objs_left(v@, v@.len() as int),
    }
}

/// Smallest x over the first `n` nodes; 0 when there are none.
pub open spec fn s_objs_left(s: Seq<Objects>, n: int) -> int
    decreases s, n,
{
    if n <= 0 || s.len() < n {
        0
    } else if n == 1 {
        s_obj_left(s[0])
    } else {
        s_min(s_objs_left(s, n - 1), s_obj_left(s[n - 1]))
    }
}

/// Largest x reached by a node; a group takes the largest over its
/// children and an empty group answers 0.
pub open spec fn s_obj_right(o: Objects) -> int
    decreases o, 1int,
{
    match o {
        Objects::Arc(a) => s_add_int(a.x as int, a.width as int),
        Objects::Ellipse(e) => s_add_int(e.x as int, e.width as int),
        Objects::Rectangle(r) => s_add_int(r.x as int, r.width as int),
        Objects::Polygon(p) => crate::polygon::s_max_x(p.coordinates@, p.coordinates@.len() as int),
        Objects::DynamicText(d) => crate::num::SCALE as int,
        Objects::Text(t) => crate::num::SCALE as int,
        Objects::Line(l) => s_max(l.x1 as int, l.x2 as int),
        Objects::Group(v) => s_objs_right(v@, v@.len() as int),
    }
}

/// Largest x over the first `n` nodes; 0 when there are none.
pub open spec fn s_objs_right(s: Seq<Objects>, n: int) -> int
    decreases s, n,
{
    if n <= 0 || s.len() < n {
        0
    } else if n == 1 {
        s_obj_right(s[0])
    } else {
        s_max(s_objs_right(s, n - 1), s_obj_right(s[n - 1]))
    }
}

/// Smallest y reached by a node; a group takes the smallest over its
/// children and an empty group answers 0.
pub open spec fn s_obj_top(o: Objects) -> int
    decreases o, 1int,
{
    match o {
        Objects::Arc(a) => a.y as int,
        Objects::Ellipse(e) => e.y as int,
        Objects::Rectangle(r) => r.y as int,
        Objects::Polygon(p) => crate::polygon::s_min_y(p.coordinates@, p.coordinates@.len() as int),
        Objects::DynamicText(d) => d.y as int,
        Objects::Text(t) => t.y as int,
        Objects::Line(l) => s_min(l.y1 as int, l.y2 as int),
        Objects::Group(v) => s_objs_top(v@, v@.len() as int),
    }
}

/// Smallest y over the first `n` nodes; 0 when there are none.
pub open spec fn s_objs_top(s: Seq<Objects>, n: int) -> int
    decreases s, n,
{
    if n <= 0 || s.len() < n {
        0
    } else if n == 1 {
        s_obj_top(s[0])
    } else {
        s_min(s_objs_top(s, n - 1), s_obj_top(s[n - 1]))
    }
}

/// Largest y reached by a node; a group takes the largest over its
/// children and an empty group answers 0.
pub open spec fn s_obj_bot(o: Objects) -> int
    decreases o, 1int,
{
    match o {
        Objects::Arc(a) => s_add_int(a.y as int, a.height as int),
        Objects::Ellipse(e) => s_add_int(e.y as int, e.height as int),
        Objects::Rectangle(r) => s_add_int(r.y as int, r.height as int),
        Objects::Polygon(p) => crate::polygon::s_max_y(p.coordinates@, p.coordinates@.len() as int),
        Objects::DynamicText(d) => crate::num::SCALE as int,
        Objects::Text(t) => crate::num::SCALE as int,
        Objects::Line(l) => s_max(l.y1 as int, l.y2 as int),
        Objects::Group(v) => s_objs_bot(v@, v@.len() as int),
    }
}

/// Largest y over the first `n` nodes; 0 when there are none.
pub open spec fn s_objs_bot(s: Seq<Objects>, n: int) -> int
    decreases s, n,
{
    if n <= 0 || s.len() < n {
        0
    } else if n == 1 {
        s_obj_bot(s[0])
    } else {
        s_max(s_objs_bot(s, n - 1), s_obj_bot(s[n - 1]))
    }
}

/// Clamped addition, spelled out for the bound formulas.
pub open spec fn s_add_int(a: int, b: int) -> int {
    crate::num::s_add(a, b)
}

/// `b` is `a` with every leaf scaled by the factors, structure unchanged.
pub open spec fn s_obj_scaled(a: Objects, fx: Factor, fy: Factor, b: Objects) -> bool
    decreases a, 1int,
{
    match a {
        Objects::Arc(x) => b matches Objects::Arc(y) && s_arc_scaled(x, fx, fy, y),
        Objects::Ellipse(x) => b matches Objects::Ellipse(y) && s_ellipse_scaled(x, fx, fy, y),
        Objects::Rectangle(x) => b matches Objects::Rectangle(y) && s_rectangle_scaled(
            x,
            fx,
            fy,
            y,
        ),
        Objects::Polygon(x) => b matches Objects::Polygon(y) && s_polygon_scaled(x, fx, fy, y),
        Objects::DynamicText(x) => b matches Objects::DynamicText(y) && s_dtext_scaled(
            x,
            fx,
            fy,
            y,
        ),
        Objects::Text(x) => b matches Objects::Text(y) && s_text_scaled(x, fx, fy, y),
        Objects::Line(x) => b matches Objects::Line(y) && s_line_scaled(x, fx, fy, y),
        Objects::Group(v) => b matches Objects::Group(w) && s_objs_scaled(v@, fx, fy, w@),
    }
}

/// Pointwise scaling over two equally long child sequences.
pub open spec fn s_objs_scaled(s: Seq<Objects>, fx: Factor, fy: Factor, t: Seq<Objects>) -> bool
    decreases s, 0int,
{
    &&& s.len() == t.len()
    &&& forall|i: int| 0 <= i < s.len() ==> s_obj_scaled(#[trigger] s[i], fx, fy, #[trigger] t[i])
}

/// Smallest x over a whole child vector.
pub fn objs_left_bound(v: &Vec<Objects>) -> (r: i64)
    ensures
        r as int == s_objs_left(v@, v@.len() as int),
    decreases *v, 0int,
{
    let n = v.len();
    if n == 0 {
        0
    } else {
        let mut m = v[0].left_bound();
        let mut i: usize = 1;
        while i < n
            invariant
                n == v@.len(),
                1 <= i <= n,
                m as int == s_objs_left(v@, i as int),
            decreases n - i,
        {
            proof {
                assert(decreases_to!(*v => v@));
                assert(decreases_to!(v@ => v@[i as int]));
            }
            m = cmin(m, v[i].left_bound());
            i += 1;
        }
        m
    }
}

/// Largest x over a whole child vector.
pub fn objs_right_bound(v: &Vec<Objects>) -> (r: i64)
    ensures
        r as int == s_objs_right(v@, v@.len() as int),
    decreases *v, 0int,
{
    let n = v.len();
    if n == 0 {
        0
    } else {
        let mut m = v[0].right_bound();
        let mut i: usize = 1;
        while i < n
            invariant
                n == v@.len(),
                1 <= i <= n,
                m as int == s_objs_right(v@, i as int),
            decreases n - i,
        {
            proof {
                assert(decreases_to!(*v => v@));
                assert(decreases_to!(v@ => v@[i as int]));
            }
            m = cmax(m, v[i].right_bound());
            i += 1;
        }
        m
    }
}

/// Smallest y over a whole child vector.
pub fn objs_top_bound(v: &Vec<Objects>) -> (r: i64)
    ensures
        r as int == s_objs_top(v@, v@.len() as int),
    decreases *v, 0int,
{
    let n = v.len();
    if n == 0 {
        0
    } else {
        let mut m = v[0].top_bound();
        let mut i: usize = 1;
        while i < n
            invariant
                n == v@.len(),
                1 <= i <= n,
                m as int == s_objs_top(v@, i as int),
            decreases n - i,
        {
            proof {
                assert(decreases_to!(*v => v@));
                assert(decreases_to!(v@ => v@[i as int]));
            }
            m = cmin(m, v[i].top_bound());
            i += 1;
        }
        m
    }
}

/// Largest y over a whole child vector.
pub fn objs_bot_bound(v: &Vec<Objects>) -> (r: i64)
    ensures
        r as int == s_objs_bot(v@, v@.len() as int),
    decreases *v, 0int,
{
    let n = v.len();
    if n == 0 {
        0
    } else {
        let mut m = v[0].bot_bound();
        let mut i: usize = 1;
        while i < n
            invariant
                n == v@.len(),
                1 <= i <= n,
                m as int == s_objs_bot(v@, i as int),
            decreases n - i,
        {
            proof {
                assert(decreases_to!(*v => v@));
                assert(decreases_to!(v@ => v@[i as int]));
            }
            m = cmax(m, v[i].bot_bound());
            i += 1;
        }
        m
    }
}

/// Scales every element of a child vector in place.
pub fn objs_scale(v: &mut Vec<Objects>, fx: Factor, fy: Factor)
    requires
        fx.valid(),
        fy.valid(),
    ensures
        s_objs_scaled(old(v)@, fx, fy, final(v)@),
    decreases *old(v), 0int,
{
    let n = v.len();
    let mut i: usize = 0;
    while i < n
        invariant
            fx.valid(),
            fy.valid(),
            n == v@.len(),
            n == old(v)@.len(),
            0 <= i <= n,
            forall|j: int| i <= j < n ==> #[trigger] v@[j] == old(v)@[j],
            forall|j: int|
                0 <= j < i ==> s_obj_scaled(#[trigger] old(v)@[j], fx, fy, #[trigger] v@[j]),
        decreases n - i,
    {
        proof {
            assert(decreases_to!(*old(v) => old(v)@));
            assert(decreases_to!(old(v)@ => old(v)@[i as int]));
            assert(old(v)@[i as int] == v@[i as int]);
        }
        v[i].scale(fx, fy);
        i += 1;
    }
}

impl Objects {
    /// Smallest x reached by this node.
    pub fn left_bound(&self) -> (r: i64)
        ensures
            r as int == s_obj_left(*self),
        decreases *self, 1int,
    {
        match self {
            Objects::Arc(a) => a.left_bound(),
            Objects::Ellipse(e) => e.left_bound(),
            Objects::Rectangle(rc) => rc.left_bound(),
            Objects::Polygon(p) => p.left_bound(),
            Objects::DynamicText(d) => d.left_bound(),
            Objects::Text(t) => t.left_bound(),
            Objects::Line(l) => l.left_bound(),
            Objects::Group(v) => {
                proof {
                    let os = *self;
                    assert(os is Group);
                    assert(decreases_to!(os => os->Group_0));
                }
                objs_left_bound(v)
            },
        }
    }

    /// Largest x reached by this node.
    pub fn right_bound(&self) -> (r: i64)
        ensures
            r as int == s_obj_right(*self),
        decreases *self, 1int,
    {
        match self {
            Objects::Arc(a) => a.right_bound(),
            Objects::Ellipse(e) => e.right_bound(),
            Objects::Rectangle(rc) => rc.right_bound(),
            Objects::Polygon(p) => p.right_bound(),
            Objects::DynamicText(d) => d.right_bound(),
            Objects::Text(t) => t.right_bound(),
            Objects::Line(l) => l.right_bound(),
            Objects::Group(v) => {
                proof {
                    let os = *self;
                    assert(os is Group);
                    assert(decreases_to!(os => os->Group_0));
                }
                objs_right_bound(v)
            },
        }
    }

    /// Smallest y reached by this node.
    pub fn top_bound(&self) -> (r: i64)
        ensures
            r as int == s_obj_top(*self),
        decreases *self, 1int,
    {
        match self {
            Objects::Arc(a) => a.top_bound(),
            Objects::Ellipse(e) => e.top_bound(),
            Objects::Rectangle(rc) => rc.top_bound(),
            Objects::Polygon(p) => p.top_bound(),
            Objects::DynamicText(d) => d.top_bound(),
            Objects::Text(t) => t.top_bound(),
            Objects::Line(l) => l.top_bound(),
            Objects::Group(v) => {
                proof {
                    let os = *self;
                    assert(os is Group);
                    assert(decreases_to!(os => os->Group_0));
                }
                objs_top_bound(v)
            },
        }
    }

    /// Largest y reached by this node.
    pub fn bot_bound(&self) -> (r: i64)
        ensures
            r as int == s_obj_bot(*self),
        decreases *self, 1int,
    {
        match self {
            Objects::Arc(a) => a.bot_bound(),
            Objects::Ellipse(e) => e.bot_bound(),
            Objects::Rectangle(rc) => rc.bot_bound(),
            Objects::Polygon(p) => p.bot_bound(),
            Objects::DynamicText(d) => d.bot_bound(),
            Objects::Text(t) => t.bot_bound(),
            Objects::Line(l) => l.bot_bound(),
            Objects::Group(v) => {
                proof {
                    let os = *self;
                    assert(os is Group);
                    assert(decreases_to!(os => os->Group_0));
                }
                objs_bot_bound(v)
            },
        }
    }

    /// Scales every leaf of the tree in place.
    pub fn scale(&mut self, fx: Factor, fy: Factor)
        requires
            fx.valid(),
            fy.valid(),
        ensures
            s_obj_scaled(*old(self), fx, fy, *final(self)),
        decreases *old(self), 1int,
    {
        match self {
            Objects::Arc(a) => a.scale(fx, fy),
            Objects::Ellipse(e) => e.scale(fx, fy),
            Objects::Rectangle(rc) => rc.scale(fx, fy),
            Objects::Polygon(p) => p.scale(fx, fy),
            Objects::DynamicText(d) => d.scale(fx, fy),
            Objects::Text(t) => t.scale(fx, fy),
            Objects::Line(l) => l.scale(fx, fy),
            Objects::Group(v) => {
                proof {
                    let os = *old(self);
                    assert(os is Group);
                    assert(decreases_to!(os => os->Group_0));
                }
                objs_scale(v, fx, fy);
            },
        }
    }
}

/// The direct children of a node: a group's child list, nothing for a
/// leaf.
pub open spec fn s_children(o: Objects) -> Seq<Objects> {
    match o {
        Objects::Group(v) => v@,
        _ => Seq::empty(),
    }
}

/// The nodes below `o` in depth-first pre-order (each child followed by
/// its own descendants), not counting `o` itself.
pub open spec fn s_descendants(o: Objects) -> Seq<Objects>
    decreases o, 0int,
{
    match o {
        Objects::Group(v) => s_descendants_upto(v@, v@.len() as int),
        _ => Seq::empty(),
    }
}

/// Depth-first pre-order flattening of the first `n` nodes of a child
/// list.
pub open spec fn s_descendants_upto(s: Seq<Objects>, n: int) -> Seq<Objects>
    decreases s, n,
{
    if n <= 0 || s.len() < n {
        Seq::empty()
    } else {
        s_descendants_upto(s, n - 1).add(seq![s[n - 1]].add(s_descendants(s[n - 1])))
    }
}

/// Collects the depth-first pre-order flattening of a whole child list.
pub fn objs_descendants<'a>(v: &'a Vec<Objects>) -> (r: Vec<&'a Objects>)
    ensures
        r@.len() == s_descendants_upto(v@, v@.len() as int).len(),
        forall|i: int|
            0 <= i < r@.len() ==> *(#[trigger] r@[i]) == s_descendants_upto(
                v@,
                v@.len() as int,
            )[i],
    decreases *v, 0int,
{
    let n = v.len();
    let mut out: Vec<&'a Objects> = Vec::new();
    let mut i: usize = 0;
    while i < n
        invariant
            n == v@.len(),
            0 <= i <= n,
            out@.len() == s_descendants_upto(v@, i as int).len(),
            forall|j: int|
                0 <= j < out@.len() ==> *(#[trigger] out@[j]) == s_descendants_upto(
                    v@,
                    i as int,
                )[j],
        decreases n - i,
    {
        proof {
            assert(decreases_to!(*v => v@));
            assert(decreases_to!(v@ => v@[i as int]));
        }
        let child = &v[i];
        out.push(child);
        let sub = child.descendants();
        let m = sub.len();
        let mut k: usize = 0;
        while k < m
            invariant
                m == sub@.len(),
                0 <= k <= m,
                n == v@.len(),
                0 <= i < n,
                *child == v@[i as int],
                sub@.len() == s_descendants(v@[i as int]).len(),
                forall|j: int|
                    0 <= j < m ==> *(#[trigger] sub@[j]) == s_descendants(v@[i as int])[j],
                out@.len() == s_descendants_upto(v@, i as int).len() + 1 + k,
                forall|j: int|
                    0 <= j < s_descendants_upto(v@, i as int).len() ==> *(#[trigger] out@[j])
                        == s_descendants_upto(v@, i as int)[j],
                out@[s_descendants_upto(v@, i as int).len() as int] == child,
                forall|j: int|
                    0 <= j < k ==> *(#[trigger] out@[s_descendants_upto(v@, i as int).len() + 1
                        + j]) == s_descendants(v@[i as int])[j],
            decreases m - k,
        {
            let x = sub[k];
            out.push(x);
            k += 1;
        }
        proof {
            let pre = s_descendants_upto(v@, i as int);
            let nxt = s_descendants_upto(v@, i as int + 1);
            let mid = seq![v@[i as int]].add(s_descendants(v@[i as int]));
            assert(nxt == pre.add(mid));
            assert(out@.len() == nxt.len());
            assert forall|j: int| 0 <= j < nxt.len() implies *(#[trigger] out@[j]) == nxt[j] by {
                if j < pre.len() {
                    assert(nxt[j] == pre[j]);
                } else if j == pre.len() {
                    assert(nxt[j] == mid[0]);
                    assert(mid[0] == v@[i as int]);
                } else {
                    let j2 = j - pre.len() - 1;
                    assert(nxt[j] == mid[j - pre.len()]);
                    assert(mid[j - pre.len()] == s_descendants(v@[i as int])[j2]);
                    assert(*out@[s_descendants_upto(v@, i as int).len() + 1 + j2]
                        == s_descendants(v@[i as int])[j2]);
                    assert(pre.len() + 1 + j2 == j);
                }
            }
        }
        i += 1;
    }
    out
}

impl Objects {
    /// The direct children of this node, in order; empty for a leaf.
    pub fn children<'a>(&'a self) -> (r: Vec<&'a Objects>)
        ensures
            r@.len() == s_children(*self).len(),
            forall|i: int|
                0 <= i < r@.len() ==> *(#[trigger] r@[i]) == s_children(*self)[i],
    {
        let mut out: Vec<&'a Objects> = Vec::new();
        match self {
            Objects::Group(v) => {
                let n = v.len();
                let mut i: usize = 0;
                while i < n
                    invariant
                        n == v@.len(),
                        0 <= i <= n,
                        out@.len() == i,
                        forall|j: int| 0 <= j < i ==> *(#[trigger] out@[j]) == v@[j],
                    decreases n - i,
                {
                    out.push(&v[i]);
                    i += 1;
                }
            },
            _ => {},
        }
        out
    }

    /// Every node below this one, in depth-first pre-order.
    pub fn descendants<'a>(&'a self) -> (r: Vec<&'a Objects>)
        ensures
            r@.len() == s_descendants(*self).len(),
            forall|i: int|
                0 <= i < r@.len() ==> *(#[trigger] r@[i]) == s_descendants(*self)[i],
        decreases *self, 1int,
    {
        match self {
            Objects::Group(v) => {
                proof {
                    let os = *self;
                    assert(os is Group);
                    assert(decreases_to!(os => os->Group_0));
                }
                objs_descendants(v)
            },
            _ => Vec::new(),
        }
    }
}

} // verus!
