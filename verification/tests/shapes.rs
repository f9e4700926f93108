//! Behaviour of the leaf shapes and the shape tree: scaling, offsets and
//! bounds, all in micro-unit coordinates.

use dxf2elmt::line::{Line, LineEnd, END_LEN_DEFAULT};
use dxf2elmt::num::{Factor, SCALE};
use dxf2elmt::objects::Objects;
use dxf2elmt::polygon::{Coordinate, Point, Polygon};
use dxf2elmt::rectangle::Rectangle;
use dxf2elmt::style::StrokeWeight;
use dxf2elmt::ellipse::Ellipse;
use dxf2elmt::font::FontInfo;
use dxf2elmt::text::Text;

fn sample_line(x1: i64, y1: i64, x2: i64, y2: i64) -> Line {
    Line {
        x1,
        y1,
        x2,
        y2,
        length1: END_LEN_DEFAULT,
        end1: LineEnd::Plain,
        length2: END_LEN_DEFAULT,
        end2: LineEnd::Plain,
        antialias: false,
        style: StrokeWeight::Thin,
    }
}

#[test]
fn line_scale_two_three() {
    // scale(2, 3) on (1,1)-(4,5) gives (2,3)-(8,15)
    let mut l = sample_line(1_000_000, 1_000_000, 4_000_000, 5_000_000);
    l.scale(Factor::from_micro(2_000_000), Factor::from_micro(3_000_000));
    assert_eq!(l.x1, 2_000_000);
    assert_eq!(l.y1, 3_000_000);
    assert_eq!(l.x2, 8_000_000);
    assert_eq!(l.y2, 15_000_000);
    // the end-decoration length follows the smaller factor: 1.5 * 2 = 3
    assert_eq!(l.length1, 3_000_000);
    assert_eq!(l.length2, 3_000_000);
}

#[test]
fn line_end_length_cap() {
    let mut l = sample_line(0, 0, 1_000_000, 0);
    l.scale(Factor::from_micro(100_000_000), Factor::from_micro(100_000_000));
    // 1.5 * 100 = 150 exceeds the 99-unit cap
    assert_eq!(l.length1, 99_000_000);
    assert_eq!(l.length2, 99_000_000);
}

#[test]
fn line_bounds() {
    let l = sample_line(4_000_000, -2_000_000, 1_000_000, 7_000_000);
    assert_eq!(l.left_bound(), 1_000_000);
    assert_eq!(l.right_bound(), 4_000_000);
    assert_eq!(l.top_bound(), -2_000_000);
    assert_eq!(l.bot_bound(), 7_000_000);
}

#[test]
fn line_offset_moves_against_y() {
    let mut l = sample_line(0, 0, 1_000_000, 1_000_000);
    l.offset(10_000_000, 4_000_000);
    assert_eq!(l.x1, 10_000_000);
    assert_eq!(l.y1, -4_000_000);
    assert_eq!(l.x2, 11_000_000);
    assert_eq!(l.y2, -3_000_000);
}

#[test]
fn ellipse_scale_and_bounds() {
    let mut e = Ellipse {
        x: 1_000_000,
        y: 2_000_000,
        width: 3_000_000,
        height: 4_000_000,
        antialias: false,
        style: StrokeWeight::Thin,
    };
    e.scale(Factor::from_micro(2_000_000), Factor::from_micro(2_000_000));
    assert_eq!(e.x, 2_000_000);
    assert_eq!(e.y, 4_000_000);
    assert_eq!(e.width, 6_000_000);
    assert_eq!(e.height, 8_000_000);
    assert_eq!(e.left_bound(), 2_000_000);
    assert_eq!(e.right_bound(), 8_000_000);
    assert_eq!(e.top_bound(), 4_000_000);
    assert_eq!(e.bot_bound(), 12_000_000);
}

#[test]
fn rectangle_scale_keeps_radii() {
    let mut r = Rectangle {
        x: 1_000_000,
        y: 1_000_000,
        rx: 0,
        ry: 0,
        width: 2_000_000,
        height: 2_000_000,
        antialias: false,
        style: StrokeWeight::Thin,
    };
    r.scale(Factor::from_micro(3_000_000), Factor::from_micro(3_000_000));
    assert_eq!(r.width, 6_000_000);
    assert_eq!(r.height, 6_000_000);
    assert_eq!(r.rx, 0);
    assert_eq!(r.ry, 0);
}

#[test]
fn polygon_scale_pointwise() {
    let mut p = Polygon {
        coordinates: vec![
            Coordinate { x: 1_000_000, y: 2_000_000 },
            Coordinate { x: -3_000_000, y: 4_000_000 },
        ],
        closed: true,
        antialias: false,
        style: StrokeWeight::Thin,
    };
    p.scale(Factor::from_micro(2_000_000), Factor::from_micro(500_000));
    assert_eq!(p.coordinates[0].x, 2_000_000);
    assert_eq!(p.coordinates[0].y, 1_000_000);
    assert_eq!(p.coordinates[1].x, -6_000_000);
    assert_eq!(p.coordinates[1].y, 2_000_000);
    assert!(p.closed);
}

#[test]
fn polygon_bounds_and_empty_default() {
    let p = Polygon {
        coordinates: vec![
            Coordinate { x: 5_000_000, y: -1_000_000 },
            Coordinate { x: -2_000_000, y: 9_000_000 },
            Coordinate { x: 3_000_000, y: 0 },
        ],
        closed: false,
        antialias: false,
        style: StrokeWeight::Thin,
    };
    assert_eq!(p.left_bound(), -2_000_000);
    assert_eq!(p.right_bound(), 5_000_000);
    assert_eq!(p.top_bound(), -1_000_000);
    assert_eq!(p.bot_bound(), 9_000_000);

    let empty = Polygon {
        coordinates: vec![],
        closed: false,
        antialias: false,
        style: StrokeWeight::Thin,
    };
    assert_eq!(empty.left_bound(), 0);
    assert_eq!(empty.right_bound(), 0);
    assert_eq!(empty.top_bound(), 0);
    assert_eq!(empty.bot_bound(), 0);
}

#[test]
fn group_bounds_take_extremes() {
    let g = Objects::Group(vec![
        Objects::Line(sample_line(1_000_000, 1_000_000, 4_000_000, 5_000_000)),
        Objects::Line(sample_line(-2_000_000, 0, 0, 9_000_000)),
    ]);
    assert_eq!(g.left_bound(), -2_000_000);
    assert_eq!(g.right_bound(), 4_000_000);
    assert_eq!(g.top_bound(), 0);
    assert_eq!(g.bot_bound(), 9_000_000);
}

#[test]
fn empty_group_bounds_default_to_zero() {
    let g = Objects::Group(vec![]);
    assert_eq!(g.left_bound(), 0);
    assert_eq!(g.right_bound(), 0);
    assert_eq!(g.top_bound(), 0);
    assert_eq!(g.bot_bound(), 0);
}

#[test]
fn group_scale_recurses() {
    let mut g = Objects::Group(vec![Objects::Group(vec![Objects::Line(sample_line(
        1_000_000, 1_000_000, 2_000_000, 2_000_000,
    ))])]);
    g.scale(Factor::from_micro(2_000_000), Factor::from_micro(2_000_000));
    match &g {
        Objects::Group(outer) => match &outer[0] {
            Objects::Group(inner) => match &inner[0] {
                Objects::Line(l) => {
                    assert_eq!(l.x1, 2_000_000);
                    assert_eq!(l.y2, 4_000_000);
                }
                _ => panic!("expected a line"),
            },
            _ => panic!("expected an inner group"),
        },
        _ => panic!("expected a group"),
    }
}

#[test]
fn static_text_scales_anchor_and_point_size() {
    let mut t = Text {
        x: 2_000_000,
        y: 3_000_000,
        rotation: 0,
        value: vec!['o', 'k'],
        font: FontInfo::default(),
        color: 0,
    };
    t.scale(Factor::from_micro(2_000_000), Factor::from_micro(4_000_000));
    assert_eq!(t.x, 4_000_000);
    assert_eq!(t.y, 12_000_000);
    // the point size follows the horizontal factor: 12 * 2 = 24
    assert_eq!(t.font.point_size, 24_000_000);
    assert_eq!(t.left_bound(), 4_000_000);
    assert_eq!(t.top_bound(), 12_000_000);
    // text extent is unknown; one unit stands in for the far bounds
    assert_eq!(t.right_bound(), 1_000_000);
    assert_eq!(t.bot_bound(), 1_000_000);
}

#[test]
fn descendants_flatten_depth_first() {
    let leaf_a = Objects::Line(sample_line(0, 0, 1, 1));
    let leaf_b = Objects::Line(sample_line(2, 2, 3, 3));
    let leaf_c = Objects::Line(sample_line(4, 4, 5, 5));
    let g = Objects::Group(vec![
        Objects::Group(vec![leaf_a, leaf_b]),
        leaf_c,
    ]);
    let kids = g.children();
    assert_eq!(kids.len(), 2);
    let all = g.descendants();
    // inner group, its two lines, then the outer leaf
    assert_eq!(all.len(), 4);
    match all[0] {
        Objects::Group(v) => assert_eq!(v.len(), 2),
        _ => panic!("expected the inner group first"),
    }
    match all[3] {
        Objects::Line(l) => assert_eq!(l.x1, 4),
        _ => panic!("expected the trailing line"),
    }
    let leaf = Objects::Line(sample_line(0, 0, 1, 1));
    assert_eq!(leaf.children().len(), 0);
    assert_eq!(leaf.descendants().len(), 0);
}
