//! Tests of the object catalog and the overlap primitive.

use geometry_rays::objects::{category_of, ObjectCategory};
use geometry_rays::geom::{DeciRect, rects_overlap};

/// Every type id of the object set maps to its behavioral category.
#[test]
fn catalog_maps_all_ids() {
    let expected: Vec<(u32, ObjectCategory)> = vec![
        (1, ObjectCategory::Hazard),
        (2, ObjectCategory::Solid),
        (3, ObjectCategory::Pad),
        (4, ObjectCategory::Orb),
        (5, ObjectCategory::GravityPortal),
        (6, ObjectCategory::GravityPortal),
        (7, ObjectCategory::Hazard),
        (8, ObjectCategory::ModePortal),
        (9, ObjectCategory::ModePortal),
        (10, ObjectCategory::Solid),
        (11, ObjectCategory::Solid),
        (12, ObjectCategory::Solid),
        (13, ObjectCategory::Solid),
        (14, ObjectCategory::Solid),
        (15, ObjectCategory::EndTrigger),
        (16, ObjectCategory::Decoration),
        (17, ObjectCategory::SpeedPortal),
        (18, ObjectCategory::SpeedPortal),
        (19, ObjectCategory::SpeedPortal),
        (20, ObjectCategory::SpeedPortal),
        (21, ObjectCategory::Pad),
        (22, ObjectCategory::Orb),
        (23, ObjectCategory::ColorTrigger),
        (24, ObjectCategory::ModePortal),
        (25, ObjectCategory::ModePortal),
    ];
    for (id, cat) in expected {
        assert_eq!(category_of(id), cat, "id {}", id);
    }
    assert_eq!(category_of(0), ObjectCategory::Decoration);
    assert_eq!(category_of(26), ObjectCategory::Decoration);
}

/// Overlap is strict: boxes that merely share an edge do not collide.
#[test]
fn overlap_is_strict() {
    let a = DeciRect { x: 0, y: 0, w: 100, h: 100 };
    let touching = DeciRect { x: 100, y: 0, w: 100, h: 100 };
    let crossing = DeciRect { x: 99, y: 99, w: 100, h: 100 };
    let apart = DeciRect { x: 300, y: 0, w: 100, h: 100 };
    assert!(!rects_overlap(&a, &touching));
    assert!(rects_overlap(&a, &crossing));
    assert!(!rects_overlap(&a, &apart));
    assert!(rects_overlap(&a, &a));
}
