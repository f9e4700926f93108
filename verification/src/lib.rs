//! Conversion engine that turns parsed vector-drawing entities (lines, arcs,
//! circles, ellipses, polylines, splines, solids, text, nested block inserts)
//! into a tree of abstract 2-D shape descriptors ready for serialization into
//! a schematic-symbol file format.
//!
//! All geometry is carried in fixed-point coordinates: an `i64` counts
//! micro-units (one millionth of an output unit), so every transformation --
//! the Y-axis flip, offset/scale composition across nested blocks, curve
//! tessellation, polygon reclassification and canvas sizing -- is exact
//! integer arithmetic with a single, fully specified clamping rule.
//! The unverified front end parses the source file and converts its
//! floating-point fields to micro-units before anything here runs.

pub mod num;
pub mod style;
pub mod line;
pub mod arc;
pub mod ellipse;
pub mod rectangle;
pub mod polygon;
pub mod font;
pub mod meta;
pub mod text;
pub mod dynamictext;
pub mod objects;
pub mod units;
pub mod entity;
pub mod classify;
pub mod tessellate;
pub mod builder;
pub mod definition;
