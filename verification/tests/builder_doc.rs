//! The entity builder, block expansion and whole-document conversion.

use dxf2elmt::builder::{BuildError, DTextBuilder, ObjectsBuilder, Description};
use dxf2elmt::definition::{canvas_axis, Definition};
use dxf2elmt::entity::{
    ArcEnt, Block, CircleEnt, Document, Entity, InsertEnt, LeaderEnt, LineEnt, MTextEnt,
    PolylineEnt, SolidEnt, SplineEnt, TextEnt, find_block, is_implemented,
};
use dxf2elmt::line::LineEnd;
use dxf2elmt::num::SCALE;
use dxf2elmt::objects::Objects;
use dxf2elmt::polygon::Point;
use dxf2elmt::style::StrokeWeight;
use dxf2elmt::units::Unit;

fn line_entity(x1: i64, y1: i64, x2: i64, y2: i64) -> Entity {
    Entity::Line(LineEnt { x1, y1, x2, y2, thickness: 0 })
}

#[test]
fn circle_becomes_ellipse() {
    let c = Entity::Circle(CircleEnt {
        cx: 5_000_000,
        cy: 3_000_000,
        radius: 2_000_000,
        thickness: 600_000,
    });
    let o = ObjectsBuilder::new(&c, 20).build().expect("a circle always builds");
    match o {
        Objects::Ellipse(e) => {
            assert_eq!(e.x, 3_000_000);
            assert_eq!(e.y, -5_000_000);
            assert_eq!(e.width, 4_000_000);
            assert_eq!(e.height, 4_000_000);
            // thickness 0.6 exceeds the coarse half-unit limit
            assert_eq!(e.style, StrokeWeight::Normal);
            assert!(!e.antialias);
        }
        _ => panic!("expected an ellipse"),
    }
}

#[test]
fn arc_sweep_wraps_through_full_turn() {
    let a = Entity::Arc(ArcEnt {
        cx: 0,
        cy: 0,
        radius: 1_000_000,
        start_angle: 350_000_000,
        end_angle: 10_000_000,
        thickness: 0,
    });
    let o = ObjectsBuilder::new(&a, 20).build().expect("an arc always builds");
    match o {
        Objects::Arc(sh) => {
            assert_eq!(sh.start, 350_000_000);
            assert_eq!(sh.angle, 20_000_000);
        }
        _ => panic!("expected an arc"),
    }
}

#[test]
fn two_vertex_polyline_is_line_even_when_closed() {
    let p = Entity::Polyline(PolylineEnt {
        vertices: vec![Point { x: 0, y: 0 }, Point { x: 1_000_000, y: 1_000_000 }],
        closed: true,
        thickness: 0,
    });
    let o = ObjectsBuilder::new(&p, 20).build().expect("two vertices build");
    match o {
        Objects::Line(l) => {
            assert_eq!(l.x1, 0);
            assert_eq!(l.y1, 0);
            assert_eq!(l.x2, 1_000_000);
            assert_eq!(l.y2, -1_000_000);
        }
        Objects::Polygon(_) => panic!("two vertices must never yield a polygon"),
        _ => panic!("expected a line"),
    }
}

#[test]
fn short_polyline_is_degenerate() {
    let p = Entity::Polyline(PolylineEnt {
        vertices: vec![Point { x: 0, y: 0 }],
        closed: false,
        thickness: 0,
    });
    assert_eq!(
        ObjectsBuilder::new(&p, 20).build().unwrap_err(),
        BuildError::DegenerateGeometry
    );
}

#[test]
fn three_vertex_polyline_falls_back_to_polygon() {
    let p = Entity::Polyline(PolylineEnt {
        vertices: vec![
            Point { x: 0, y: 0 },
            Point { x: 4_000_000, y: 0 },
            Point { x: 0, y: 3_000_000 },
        ],
        closed: true,
        thickness: 200_000,
    });
    let o = ObjectsBuilder::new(&p, 20).build().expect("three vertices build");
    match o {
        Objects::Polygon(pg) => {
            assert_eq!(pg.coordinates.len(), 3);
            assert!(pg.closed);
            // thickness 0.2 exceeds the fine tenth-unit limit
            assert_eq!(pg.style, StrokeWeight::Normal);
        }
        _ => panic!("expected the generic polygon"),
    }
}

#[test]
fn rectangular_polyline_promotes() {
    let p = Entity::Polyline(PolylineEnt {
        vertices: vec![
            Point { x: 0, y: 0 },
            Point { x: 4_000_000, y: 0 },
            Point { x: 4_000_000, y: 2_000_000 },
            Point { x: 0, y: 2_000_000 },
        ],
        closed: true,
        thickness: 0,
    });
    let o = ObjectsBuilder::new(&p, 20).build().expect("the quad builds");
    match o {
        Objects::Rectangle(r) => {
            assert_eq!(r.width, 4_000_000);
            assert_eq!(r.height, 2_000_000);
        }
        _ => panic!("expected the promoted rectangle"),
    }
}

#[test]
fn unsupported_kind_is_counted_not_fatal() {
    assert_eq!(
        ObjectsBuilder::new(&Entity::Unsupported, 20).build().unwrap_err(),
        BuildError::UnsupportedEntity
    );
    assert!(!is_implemented(&Entity::Unsupported));
    assert!(is_implemented(&line_entity(0, 0, 1, 1)));
}

#[test]
fn insert_expands_block_with_offset_and_scale() {
    // an insert at (10,10) with x/y scale 2 of a block at base (0,0)
    // holding one line (0,0)-(1,1): the group holds one line whose
    // source-space image runs (10,10)-(12,12), stored with Y negated
    let blocks = vec![Block {
        name: String::from("unit"),
        base_x: 0,
        base_y: 0,
        entities: vec![line_entity(0, 0, 1_000_000, 1_000_000)],
    }];
    let ins = Entity::Insert(InsertEnt {
        name: String::from("unit"),
        x: 10_000_000,
        y: 10_000_000,
        x_scale: 2_000_000,
        y_scale: 2_000_000,
    });
    let o = ObjectsBuilder::new(&ins, 20)
        .blocks(&blocks)
        .build()
        .expect("the block resolves");
    match o {
        Objects::Group(children) => {
            assert_eq!(children.len(), 1);
            match &children[0] {
                Objects::Line(l) => {
                    assert_eq!(l.x1, 10_000_000);
                    assert_eq!(l.y1, -10_000_000);
                    assert_eq!(l.x2, 12_000_000);
                    assert_eq!(l.y2, -12_000_000);
                }
                _ => panic!("expected the block's line"),
            }
        }
        _ => panic!("expected a group"),
    }
}

#[test]
fn insert_subtracts_block_base_point() {
    let blocks = vec![Block {
        name: String::from("based"),
        base_x: 3_000_000,
        base_y: 1_000_000,
        entities: vec![line_entity(3_000_000, 1_000_000, 4_000_000, 1_000_000)],
    }];
    let ins = Entity::Insert(InsertEnt {
        name: String::from("based"),
        x: 10_000_000,
        y: 10_000_000,
        x_scale: 1_000_000,
        y_scale: 1_000_000,
    });
    let o = ObjectsBuilder::new(&ins, 20).blocks(&blocks).build().unwrap();
    match o {
        Objects::Group(children) => match &children[0] {
            Objects::Line(l) => {
                // offset is location minus base point: (7, 9)
                assert_eq!(l.x1, 10_000_000);
                assert_eq!(l.y1, -10_000_000);
                assert_eq!(l.x2, 11_000_000);
            }
            _ => panic!("expected the block's line"),
        },
        _ => panic!("expected a group"),
    }
}

#[test]
fn missing_block_is_local_to_the_instance() {
    let blocks: Vec<Block> = vec![];
    let ins = Entity::Insert(InsertEnt {
        name: String::from("ghost"),
        x: 0,
        y: 0,
        x_scale: 1_000_000,
        y_scale: 1_000_000,
    });
    assert_eq!(
        ObjectsBuilder::new(&ins, 20).blocks(&blocks).build().unwrap_err(),
        BuildError::MissingBlock
    );

    // in a whole document the bad instance is skipped and counted while
    // the entities after it still convert
    let doc = Document {
        entities: vec![ins.clone(), line_entity(0, 0, 1_000_000, 0)],
        blocks: vec![],
        units: Unit::Unitless,
    };
    let (d, skips) = Description::from_document(&doc, 20);
    assert_eq!(d.objects.len(), 1);
    assert!(matches!(d.objects[0], Objects::Line(_)));
    assert_eq!(skips.missing_block, 1);
    assert_eq!(skips.unsupported, 0);
    assert_eq!(skips.degenerate, 0);
    assert_eq!(skips.recursion, 0);
}

#[test]
fn self_referential_block_hits_the_nesting_bound() {
    let blocks = vec![Block {
        name: String::from("ouroboros"),
        base_x: 0,
        base_y: 0,
        entities: vec![Entity::Insert(InsertEnt {
            name: String::from("ouroboros"),
            x: 0,
            y: 0,
            x_scale: 1_000_000,
            y_scale: 1_000_000,
        })],
    }];
    let ins = Entity::Insert(InsertEnt {
        name: String::from("ouroboros"),
        x: 0,
        y: 0,
        x_scale: 1_000_000,
        y_scale: 1_000_000,
    });
    assert_eq!(
        ObjectsBuilder::new(&ins, 20).blocks(&blocks).build().unwrap_err(),
        BuildError::RecursionLimitExceeded
    );
}

#[test]
fn duplicate_block_names_resolve_to_the_first() {
    let blocks = vec![
        Block {
            name: String::from("twin"),
            base_x: 0,
            base_y: 0,
            entities: vec![],
        },
        Block {
            name: String::from("twin"),
            base_x: 9,
            base_y: 9,
            entities: vec![],
        },
    ];
    let found = find_block(&blocks, &String::from("twin")).expect("the name exists");
    assert_eq!(found.base_x, 0);
    assert!(find_block(&blocks, &String::from("other")).is_none());
}

#[test]
fn solid_becomes_closed_quad() {
    let s = Entity::Solid(SolidEnt {
        p1: Point { x: 0, y: 0 },
        p2: Point { x: 1_000_000, y: 0 },
        p3: Point { x: 1_000_000, y: 1_000_000 },
        p4: Point { x: 0, y: 1_000_000 },
        thickness: 0,
    });
    let o = ObjectsBuilder::new(&s, 20).build().unwrap();
    match o {
        Objects::Polygon(p) => {
            assert_eq!(p.coordinates.len(), 4);
            assert!(p.closed);
            assert_eq!(p.coordinates[2].x, 1_000_000);
            assert_eq!(p.coordinates[2].y, -1_000_000);
        }
        _ => panic!("expected a polygon"),
    }
}

#[test]
fn leader_becomes_group_of_lines_with_arrowhead() {
    let l = Entity::Leader(LeaderEnt {
        vertices: vec![
            Point { x: 0, y: 0 },
            Point { x: 1_000_000, y: 0 },
            Point { x: 2_000_000, y: 1_000_000 },
        ],
        use_arrowheads: true,
    });
    let o = ObjectsBuilder::new(&l, 20).build().unwrap();
    match o {
        Objects::Group(children) => {
            assert_eq!(children.len(), 2);
            match (&children[0], &children[1]) {
                (Objects::Line(a), Objects::Line(b)) => {
                    assert_eq!(a.end1, LineEnd::SimpleArrow);
                    assert_eq!(b.end1, LineEnd::Plain);
                    assert_eq!(a.style, StrokeWeight::Normal);
                    assert_eq!(b.x2, 2_000_000);
                    assert_eq!(b.y2, -1_000_000);
                }
                _ => panic!("expected two lines"),
            }
        }
        _ => panic!("expected a group"),
    }
}

#[test]
fn degenerate_spline_is_an_error() {
    let sp = Entity::Spline(SplineEnt {
        degree: 3,
        control_points: vec![Point { x: 0, y: 0 }, Point { x: 1, y: 1 }],
        knots: vec![0, 0, 1, 1],
        closed: false,
    });
    assert_eq!(
        ObjectsBuilder::new(&sp, 20).build().unwrap_err(),
        BuildError::DegenerateGeometry
    );
}

#[test]
fn spline_builds_flipped_polygon() {
    let sp = Entity::Spline(SplineEnt {
        degree: 1,
        control_points: vec![Point { x: 0, y: 0 }, Point { x: 10_000_000, y: 10_000_000 }],
        knots: vec![0, 0, 10_000_000, 10_000_000],
        closed: false,
    });
    let o = ObjectsBuilder::new(&sp, 10).build().unwrap();
    match o {
        Objects::Polygon(p) => {
            assert_eq!(p.coordinates.len(), 10);
            assert_eq!(p.style, StrokeWeight::Thin);
            assert_eq!(p.coordinates[3].x, 3_000_000);
            assert_eq!(p.coordinates[3].y, -3_000_000);
        }
        _ => panic!("expected a polygon"),
    }
}

#[test]
fn text_becomes_dynamic_text() {
    let t = Entity::Text(TextEnt {
        x: 1_000_000,
        y: 2_000_000,
        z: 0,
        rotation: 0,
        height: 5_000_000,
        value: vec!['h', 'i'],
        color: 0xff0000,
    });
    let o = ObjectsBuilder::new(&t, 20).build().unwrap();
    match o {
        Objects::DynamicText(dt) => {
            assert_eq!(dt.x, 1_000_000);
            assert_eq!(dt.y, -2_000_000);
            assert_eq!(dt.rotation, 0);
            assert_eq!(dt.text, vec!['h', 'i']);
            assert_eq!(dt.font.point_size, 5_000_000);
            assert_eq!(dt.color, 0xff0000);
            assert_eq!(dt.text_width, -1);
            assert!(!dt.frame);
        }
        _ => panic!("expected dynamic text"),
    }
}

#[test]
fn rotated_text_normalizes_by_a_half_turn() {
    let t = Entity::Text(TextEnt {
        x: 0,
        y: 0,
        z: 0,
        rotation: 90_000_000,
        height: 1_000_000,
        value: vec![],
        color: 0,
    });
    match ObjectsBuilder::new(&t, 20).build().unwrap() {
        Objects::DynamicText(dt) => assert_eq!(dt.rotation, -90_000_000),
        _ => panic!("expected dynamic text"),
    }
    let whole = Entity::Text(TextEnt {
        x: 0,
        y: 0,
        z: 0,
        rotation: 360_000_000,
        height: 1_000_000,
        value: vec![],
        color: 0,
    });
    match ObjectsBuilder::new(&whole, 20).build().unwrap() {
        Objects::DynamicText(dt) => assert_eq!(dt.rotation, 0),
        _ => panic!("expected dynamic text"),
    }
}

#[test]
fn mtext_line_breaks_are_unescaped() {
    let m = MTextEnt {
        x: 0,
        y: 0,
        z: 0,
        rotation: 0,
        height: 1_000_000,
        text: vec!['a', '\\', 'P', 'b'],
        color: 0,
        attachment_point: 5,
        reference_rectangle_width: 7_000_000,
    };
    let dt = DTextBuilder::from_mtext(&m).color(0x00ff00).build();
    assert_eq!(dt.text, vec!['a', '\n', 'b']);
    assert_eq!(dt.attachment_point, 5);
    assert_eq!(dt.reference_rectangle_width, 7_000_000);
    assert_eq!(dt.color, 0x00ff00);
}

#[test]
fn definition_sizes_canvas_from_scaled_bounds() {
    // one line from (0,0) to (10,10) in a millimeter drawing: the global
    // pass doubles it; extents 20 in each direction
    let doc = Document {
        entities: vec![line_entity(0, 0, 10_000_000, 10_000_000)],
        blocks: vec![],
        units: Unit::Millimeters,
    };
    let (def, skips) = Definition::new(
        String::from("sample"),
        String::from("0000-demo"),
        20,
        &doc,
    );
    assert_eq!(skips.unsupported, 0);
    assert_eq!(def.width, 30);
    assert_eq!(def.height, 30);
    assert_eq!(def.hotspot_x, 5);
    assert_eq!(def.hotspot_y, 25);
    assert_eq!(def.version, "0.8.0");
    assert_eq!(def.informations, "Created using dxf2elmt!");
    assert_eq!(def.uuid.uuid, "0000-demo");
    assert_eq!(def.names.names.len(), 1);
    assert_eq!(def.names.names[0].lang, "en");
    assert_eq!(def.names.names[0].value, "sample");
    assert_eq!(def.description.objects.len(), 1);
    match &def.description.objects[0] {
        Objects::Line(l) => {
            assert_eq!(l.x2, 20_000_000);
            assert_eq!(l.y2, -20_000_000);
        }
        _ => panic!("expected the scaled line"),
    }
}

#[test]
fn canvas_axis_rounding_rules() {
    // leftBound -3.4, rightBound 20.0: rawWidth 23.4, intWidth 23,
    // upWidth 30, margin 7, remainder 3 not above 6, width 30,
    // hotspot -round(-3.4 - 3.5) = 7
    let (w, hx) = canvas_axis(-3_400_000, 20_000_000);
    assert_eq!(w, 30);
    assert_eq!(hx, 7);
    // remainder above six pads a further ten: raw 27.0 -> int 27, up 30,
    // 27 mod 10 = 7 > 6 -> width 40
    let (w2, _) = canvas_axis(0, 27_000_000);
    assert_eq!(w2, 40);
}

#[test]
fn scale_factor_is_identity_times_spline_step_free() {
    // a builder carries its configuration unchanged
    let e = line_entity(0, 0, 1, 1);
    let b = ObjectsBuilder::new(&e, 7).offsets(3, 4).scaling(2_000_000, 3_000_000);
    assert_eq!(b.spline_step, 7);
    assert_eq!(b.offset.x, 3);
    assert_eq!(b.offset.y, 4);
    assert_eq!(b.scale_fact.x, 2_000_000);
    assert_eq!(b.scale_fact.y, 3_000_000);
    assert_eq!(SCALE, 1_000_000);
}
