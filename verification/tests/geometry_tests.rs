//! Shapes, the vertex transform, index rebasing, and the ready-made
//! controls.

use enamel::{Element, ElementKind, HandlerOption, Region, Shape2d, TextBox, Vertex};

const ORANGE: (u8, u8, u8, u8) = (245, 102, 0, 255);

#[test]
fn rectangle_shape_has_exact_corners() {
    let s = Shape2d::rectangle(1000, 2000, -100, ORANGE);
    assert_eq!(s.radii, (1000, 500));
    assert_eq!(s.vertices.len(), 4);
    assert_eq!(s.vertices[0].position, (-1000, -500, -100));
    assert_eq!(s.vertices[1].position, (-1000, 500, -100));
    assert_eq!(s.vertices[2].position, (1000, 500, -100));
    assert_eq!(s.vertices[3].position, (1000, -500, -100));
    assert_eq!(s.indices, vec![0, 1, 2, 0, 2, 3]);
    assert_eq!(s.vertices[2].color, ORANGE);
}

#[test]
fn hexagon_panel_has_exact_points() {
    // Half-height 500 reaches 500 * 577 / 1000 = 288 beyond the flat
    // section on each side.
    let s = Shape2d::hexagon_panel(1000, 1800, 0, ORANGE);
    assert_eq!(s.radii, (900 + 288, 500));
    assert_eq!(s.vertices.len(), 6);
    assert_eq!(s.vertices[0].position, (-1188, 0, 0));
    assert_eq!(s.vertices[1].position, (-900, 500, 0));
    assert_eq!(s.vertices[2].position, (900, 500, 0));
    assert_eq!(s.vertices[3].position, (1188, 0, 0));
    assert_eq!(s.vertices[4].position, (900, -500, 0));
    assert_eq!(s.vertices[5].position, (-900, -500, 0));
    assert_eq!(s.indices, vec![0, 1, 2, 0, 2, 3, 0, 3, 4, 0, 4, 5]);
}

#[test]
fn element_region_derives_from_anchor_offset_and_radii() {
    let shape = Shape2d::rectangle(1000, 1000, 0, ORANGE);
    let e: Element<u8, u8> = Element::new(ElementKind::RectButton, (100, -200, 0), (50, 60, 0), shape);
    assert_eq!(
        e.hit_region(),
        Region { x_lo: 150 - 500, x_hi: 150 + 500, y_lo: -140 - 500, y_hi: -140 + 500 }
    );
    assert_eq!(e.get_text().as_str(), "");
}

#[test]
fn vertices_apply_scale_and_aspect_correction() {
    // On a 600x800 surface the x axis is scaled by 600/600 and the y axis
    // by 600/800; the UI scale here is unity (1000 permille).
    let shape = Shape2d::rectangle(1000, 1000, 7, ORANGE);
    let e: Element<u8, u8> = Element::new(ElementKind::RectButton, (10, 20, 30), (1, 2, 3), shape);
    let vs = e.vertices((600, 800), 1000);
    assert_eq!(vs.len(), 4);
    // x = 10 + (1 + -500) * 600 / 600 = -489 (truncating toward zero)
    // y = 20 + (2 + -500) * 600 / 800 = 20 - 373 = -353
    // z = 30 + 3 + 7 = 40
    assert_eq!(vs[0].position, (-489, -353, 40));
    assert_eq!(vs[2].position, (10 + 501, 20 + 376, 40));
    assert_eq!(vs[0].xy_normal, (-1000, -1000));
}

#[test]
fn vertices_apply_permille_scale() {
    let shape = Shape2d::rectangle(1000, 1000, 0, ORANGE);
    let e: Element<u8, u8> = Element::new(ElementKind::RectButton, (0, 0, 0), (0, 0, 0), shape);
    let vs = e.vertices((100, 100), 900);
    // x = (-500 * 900 / 1000) * 100 / 100 = -450
    assert_eq!(vs[0].position, (-450, -450, 0));
    assert_eq!(vs[2].position, (450, 450, 0));
}

#[test]
fn indices_rebase_past_earlier_vertices() {
    let shape = Shape2d::rectangle(1000, 1000, 0, ORANGE);
    let e: Element<u8, u8> = Element::new(ElementKind::RectButton, (0, 0, 0), (0, 0, 0), shape);
    assert_eq!(e.vertex_count(), 4);
    assert_eq!(e.indices(10), vec![10, 11, 12, 10, 12, 13]);
}

#[test]
fn text_box_nests_a_text_field() {
    let e: Element<u8, u8> = TextBox::new((0, 0, 0), (-385, 270), 4450, "Text:", ORANGE, "1");
    assert_eq!(e.get_text().as_str(), "Text:");
    // A hexagon panel (6 vertices) plus the nested field's rectangle (4).
    assert_eq!(e.vertex_count(), 10);
    // The nested field's triangles sit after the panel's six vertices.
    assert_eq!(
        e.indices(0),
        vec![0, 1, 2, 0, 2, 3, 0, 3, 4, 0, 4, 5, 6, 7, 8, 6, 8, 9]
    );
    // Panel reach: 4450/2 + 500 * 577 / 1000 = 2225 + 288.
    assert_eq!(
        e.hit_region(),
        Region { x_lo: -385 - 2513, x_hi: -385 + 2513, y_lo: 270 - 500, y_hi: 270 + 500 }
    );
}

#[test]
fn vertex_bundles_attributes() {
    let v = Vertex::new((1, 2, 3), (4, 5, 6, 7), (8, 9));
    assert_eq!(v.position, (1, 2, 3));
    assert_eq!(v.color, (4, 5, 6, 7));
    assert_eq!(v.xy_normal, (8, 9));
}

#[test]
fn handler_option_reports_presence() {
    let none: HandlerOption<u8> = HandlerOption::Absent;
    let some: HandlerOption<u8> = HandlerOption::Fn(3);
    let sub: HandlerOption<u8> = HandlerOption::Sub(0);
    assert!(!none.is_some());
    assert!(some.is_some());
    assert!(sub.is_some());
    assert_eq!(none.debug_string(), "HandlerOption::Absent");
    assert_eq!(some.debug_string(), "HandlerOption::Fn(_)");
    assert_eq!(sub.debug_string(), "HandlerOption::Sub(_)");
}
