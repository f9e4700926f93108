//! Stroke styling shared by all drawable shapes.
//!
//! A shape's stroke is two-valued: "normal" when the source entity's
//! thickness exceeds a per-entity-kind limit, "thin" otherwise.  The limits
//! are named constants (micro-units) rather than inline literals so they can
//! be tuned in one place.

use vstd::prelude::*;

verus! {

/// Thickness above which arcs, polylines and lightweight polylines are
/// stroked "normal" (0.1 output units).
pub const THICK_LIMIT_FINE: i64 = 100_000;

/// Thickness above which circles, ellipses, solids and lines are stroked
/// "normal" (0.5 output units).
pub const THICK_LIMIT_COARSE: i64 = 500_000;

/// Two-valued stroke weight.
#[derive(Clone, Copy, Debug, PartialEq, Eq, Structural)]
pub enum StrokeWeight {
    Normal,
    Thin,
}

/// The stroke weight selected for a source thickness and a per-entity-kind
/// limit.
pub open spec fn s_weight(thickness: int, limit: int) -> StrokeWeight {
    if thickness > limit {
        StrokeWeight::Normal
    } else {
        StrokeWeight::Thin
    }
}

/// Selects the stroke weight for a source thickness against a limit.
pub fn weight_for(thickness: i64, limit: i64) -> (r: StrokeWeight)
    ensures
        r == s_weight(thickness as int, limit as int),
{
    if thickness > limit {
        StrokeWeight::Normal
    } else {
        StrokeWeight::Thin
    }
}

} // verus!
