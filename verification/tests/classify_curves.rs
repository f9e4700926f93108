//! The polygon classifier and the curve tessellator.

use dxf2elmt::classify::{bounding_box, is_circular, is_rectangular, try_ellipse, try_rectangle};
use dxf2elmt::polygon::Point;
use dxf2elmt::tessellate::tessellate;

fn hexadecagon() -> Vec<Point> {
    // a regular 16-gon inscribed in a circle of radius 10 units
    let raw: [(i64, i64); 16] = [
        (10000000, 0),
        (9238795, 3826834),
        (7071068, 7071068),
        (3826834, 9238795),
        (0, 10000000),
        (-3826834, 9238795),
        (-7071068, 7071068),
        (-9238795, 3826834),
        (-10000000, 0),
        (-9238795, -3826834),
        (-7071068, -7071068),
        (-3826834, -9238795),
        (0, -10000000),
        (3826834, -9238795),
        (7071068, -7071068),
        (9238795, -3826834),
    ];
    raw.iter().map(|&(x, y)| Point { x, y }).collect()
}

#[test]
fn regular_16gon_is_circular() {
    let pts = hexadecagon();
    assert!(is_circular(&pts));
    let e = try_ellipse(&pts).expect("the ring should promote");
    // the promoted ellipse spans the ring's bounding box: 20 units wide
    // and tall (well within two percent of the diameter), top-left at
    // (-10, -10) after the Y flip
    assert_eq!(e.width, 20_000_000);
    assert_eq!(e.height, 20_000_000);
    assert_eq!(e.x, -10_000_000);
    assert_eq!(e.y, -10_000_000);
}

#[test]
fn square_is_not_circular() {
    let pts = vec![
        Point { x: 0, y: 0 },
        Point { x: 4_000_000, y: 0 },
        Point { x: 4_000_000, y: 4_000_000 },
        Point { x: 0, y: 4_000_000 },
    ];
    // a square's thinness ratio is pi/4, far below the band
    assert!(!is_circular(&pts));
    assert!(is_rectangular(&pts));
}

#[test]
fn axis_aligned_quad_promotes_to_exact_extents() {
    let pts = vec![
        Point { x: 1_000_000, y: 2_000_000 },
        Point { x: 5_000_000, y: 2_000_000 },
        Point { x: 5_000_000, y: 4_000_000 },
        Point { x: 1_000_000, y: 4_000_000 },
    ];
    let r = try_rectangle(&pts).expect("the quad should promote");
    assert_eq!(r.width, 4_000_000);
    assert_eq!(r.height, 2_000_000);
    assert_eq!(r.x, 1_000_000);
    assert_eq!(r.y, -4_000_000);
    assert_eq!(r.rx, 0);
    assert_eq!(r.ry, 0);
}

#[test]
fn tilted_quad_is_not_rectangular() {
    let pts = vec![
        Point { x: 0, y: 0 },
        Point { x: 4_000_000, y: 1_000_000 },
        Point { x: 3_000_000, y: 5_000_000 },
        Point { x: -1_000_000, y: 4_000_000 },
    ];
    assert!(!is_rectangular(&pts));
}

#[test]
fn zero_perimeter_ring_is_not_circular() {
    // all vertices equal: the ratio guard must fail soft, not divide
    let p = Point { x: 3_000_000, y: 3_000_000 };
    let pts = vec![p, p, p];
    assert!(!is_circular(&pts));
    assert!(!is_rectangular(&pts));
    assert!(try_ellipse(&pts).is_none());
    assert!(try_rectangle(&pts).is_none());
}

#[test]
fn bounding_box_of_ring() {
    let pts = vec![
        Point { x: -1, y: 7 },
        Point { x: 9, y: -2 },
        Point { x: 4, y: 5 },
    ];
    let (min_x, max_x, min_y, max_y) = bounding_box(&pts);
    assert_eq!((min_x, max_x, min_y, max_y), (-1, 9, -2, 7));
}

#[test]
fn cubic_tessellation_stays_in_hull_box() {
    // degree 3, four control points, clamped knots, twenty steps:
    // at most 21 points, every one inside the control-point box
    let pts = vec![
        Point { x: 0, y: 0 },
        Point { x: 10_000_000, y: 0 },
        Point { x: 10_000_000, y: 10_000_000 },
        Point { x: 0, y: 10_000_000 },
    ];
    let knots = vec![0, 0, 0, 0, 1_000_000, 1_000_000, 1_000_000, 1_000_000];
    let out = tessellate(3, &pts, &knots, 20).expect("the curve is evaluable");
    assert!(out.len() >= 2);
    assert!(out.len() <= 21);
    for p in &out {
        assert!(p.x >= 0 && p.x <= 10_000_000);
        assert!(p.y >= 0 && p.y <= 10_000_000);
    }
    // the sweep starts at the domain start, where a clamped cubic passes
    // through its first control point
    assert_eq!(out[0].x, 0);
    assert_eq!(out[0].y, 0);
}

#[test]
fn degenerate_curves_do_not_tessellate() {
    let pts = vec![Point { x: 0, y: 0 }, Point { x: 1_000_000, y: 0 }];
    let knots = vec![0, 0, 1_000_000, 1_000_000];
    // fine: degree 1, two points, four knots
    assert!(tessellate(1, &pts, &knots, 20).is_some());
    // degree too high for the control points
    assert!(tessellate(3, &pts, &knots, 20).is_none());
    // knot count off by one
    let bad_knots = vec![0, 0, 1_000_000];
    assert!(tessellate(1, &pts, &bad_knots, 20).is_none());
    // empty knot domain
    let flat = vec![0, 0, 0, 0];
    assert!(tessellate(1, &pts, &flat, 20).is_none());
    // no steps requested
    assert!(tessellate(1, &pts, &knots, 0).is_none());
}

#[test]
fn linear_tessellation_interpolates() {
    let pts = vec![Point { x: 0, y: 0 }, Point { x: 10_000_000, y: 0 }];
    let knots = vec![0, 0, 10_000_000, 10_000_000];
    let out = tessellate(1, &pts, &knots, 10).expect("the segment is evaluable");
    assert_eq!(out.len(), 10);
    for (i, p) in out.iter().enumerate() {
        assert_eq!(p.x, i as i64 * 1_000_000);
        assert_eq!(p.y, 0);
    }
}
