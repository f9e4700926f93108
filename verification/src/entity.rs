//! The source document model: one entity per drawing primitive, blocks of
//! reusable entities, and the document that carries them.
//!
//! All geometry arrives in micro-units (the unverified reader converts the
//! source file's floating-point fields); angles are micro-degrees, scale
//! factors micro-fixed, colors 24-bit RGB.

use vstd::prelude::*;
use crate::polygon::Point;
use crate::units::Unit;

verus! {

/// A full circle.
#[derive(Clone, Copy, Debug, PartialEq, Eq, Structural)]
pub struct CircleEnt {
    pub cx: i64,
    pub cy: i64,
    pub radius: i64,
    pub thickness: i64,
}

/// A straight segment.
#[derive(Clone, Copy, Debug, PartialEq, Eq, Structural)]
pub struct LineEnt {
    pub x1: i64,
    pub y1: i64,
    pub x2: i64,
    pub y2: i64,
    pub thickness: i64,
}

/// A circular arc, with angles in counter-clockwise micro-degrees.
#[derive(Clone, Copy, Debug, PartialEq, Eq, Structural)]
pub struct ArcEnt {
    pub cx: i64,
    pub cy: i64,
    pub radius: i64,
    pub start_angle: i64,
    pub end_angle: i64,
    pub thickness: i64,
}

/// An ellipse given by its center, the x extent of its major axis and the
/// minor-to-major ratio (micro-fixed).
#[derive(Clone, Copy, Debug, PartialEq, Eq, Structural)]
pub struct EllipseEnt {
    pub cx: i64,
    pub cy: i64,
    pub major_x: i64,
    pub minor_ratio: i64,
    pub thickness: i64,
}

/// A heavyweight polyline.
#[derive(Clone, Debug)]
pub struct PolylineEnt {
    pub vertices: Vec<Point>,
    pub closed: bool,
    pub thickness: i64,
}

/// A lightweight polyline.
#[derive(Clone, Debug)]
pub struct LwPolylineEnt {
    pub vertices: Vec<Point>,
    pub closed: bool,
    pub thickness: i64,
}

/// A B-spline curve.
#[derive(Clone, Debug)]
pub struct SplineEnt {
    pub degree: u32,
    pub control_points: Vec<Point>,
    pub knots: Vec<i64>,
    pub closed: bool,
}

/// A single-line text entity.
#[derive(Clone, Debug)]
pub struct TextEnt {
    pub x: i64,
    pub y: i64,
    pub z: i64,
    pub rotation: i64,
    pub height: i64,
    pub value: Vec<char>,
    pub color: u32,
}

/// A multi-line text entity; its text has the source format's line-break
/// escapes already present (a backslash followed by a capital P).
#[derive(Clone, Debug)]
pub struct MTextEnt {
    pub x: i64,
    pub y: i64,
    pub z: i64,
    pub rotation: i64,
    pub height: i64,
    pub text: Vec<char>,
    pub color: u32,
    pub attachment_point: i32,
    pub reference_rectangle_width: i64,
}

/// An attribute-definition entity, rendered like a text entity.
#[derive(Clone, Debug)]
pub struct AttribEnt {
    pub x: i64,
    pub y: i64,
    pub z: i64,
    pub rotation: i64,
    pub height: i64,
    pub value: Vec<char>,
    pub color: u32,
}

/// A placement of a named block at a location with its own scale factors
/// (micro-fixed).
#[derive(Clone, Debug)]
pub struct InsertEnt {
    pub name: String,
    pub x: i64,
    pub y: i64,
    pub x_scale: i64,
    pub y_scale: i64,
}

/// A leader: a chain of segments, optionally starting with an arrowhead.
#[derive(Clone, Debug)]
pub struct LeaderEnt {
    pub vertices: Vec<Point>,
    pub use_arrowheads: bool,
}

/// A filled quadrilateral.
#[derive(Clone, Copy, Debug, PartialEq, Eq, Structural)]
pub struct SolidEnt {
    pub p1: Point,
    pub p2: Point,
    pub p3: Point,
    pub p4: Point,
    pub thickness: i64,
}

/// One drawing primitive of the source document.
#[derive(Clone, Debug)]
pub enum Entity {
    Circle(CircleEnt),
    Line(LineEnt),
    Arc(ArcEnt),
    Ellipse(EllipseEnt),
    Polyline(PolylineEnt),
    LwPolyline(LwPolylineEnt),
    Spline(SplineEnt),
    Text(TextEnt),
    MText(MTextEnt),
    AttributeDefinition(AttribEnt),
    Insert(InsertEnt),
    Leader(LeaderEnt),
    Solid(SolidEnt),
    Unsupported,
}

/// A named, reusable group of entities with a base point.
#[derive(Clone, Debug)]
pub struct Block {
    pub name: String,
    pub base_x: i64,
    pub base_y: i64,
    pub entities: Vec<Entity>,
}

/// A whole source document.
#[derive(Clone, Debug)]
pub struct Document {
    pub entities: Vec<Entity>,
    pub blocks: Vec<Block>,
    pub units: Unit,
}

/// Whether the builder can turn this entity into a shape at all.
pub open spec fn s_is_implemented(e: Entity) -> bool {
    !(e is Unsupported)
}

/// Tells whether an entity's kind is one the builder understands.
pub fn is_implemented(e: &Entity) -> (r: bool)
    ensures
        r == s_is_implemented(*e),
{
    match e {
        Entity::Unsupported => false,
        _ => true,
    }
}

/// Index of the first block with the given name, if any.
pub open spec fn s_find_block(blocks: Seq<Block>, name: Seq<char>, n: int) -> Option<int>
    decreases n,
{
    if n <= 0 {
        None
    } else if s_find_block(blocks, name, n - 1) is Some {
        s_find_block(blocks, name, n - 1)
    } else if blocks[n - 1].name@ == name {
        Some(n - 1)
    } else {
        None
    }
}

/// Finds the first block with the given name; when several blocks share a
/// name the earliest wins.
pub fn find_block<'a>(blocks: &'a Vec<Block>, name: &String) -> (r: Option<&'a Block>)
    ensures
        match r {
            Some(b) => {
                &&& s_find_block(blocks@, name@, blocks@.len() as int) matches Some(i)
                &&& 0 <= i < blocks@.len()
                &&& *b == blocks@[i]
            },
            None => s_find_block(blocks@, name@, blocks@.len() as int) is None,
        },
{
    let n = blocks.len();
    let mut i: usize = 0;
    while i < n
        invariant
            n == blocks@.len(),
            0 <= i <= n,
            s_find_block(blocks@, name@, i as int) is None,
        decreases n - i,
    {
        if blocks[i].name.eq(name) {
            proof {
                lemma_find_block_extends(blocks@, name@, i as int, n as int);
            }
            return Some(&blocks[i]);
        }
        i += 1;
    }
    None
}

/// Once a match is found at `i`, every longer search returns `i`.
proof fn lemma_find_block_extends(blocks: Seq<Block>, name: Seq<char>, i: int, n: int)
    requires
        0 <= i < n <= blocks.len(),
        s_find_block(blocks, name, i) is None,
        blocks[i].name@ == name,
    ensures
        s_find_block(blocks, name, n) == Some(i),
    decreases n,
{
    if n == i + 1 {
    } else {
        lemma_find_block_extends(blocks, name, i, n - 1);
    }
}

} // verus!
