//! Ready-made controls: a hexagon-panel text box with a nested
//! rectangular text field.

use vstd::prelude::*;

use crate::ui::element::{
    Element, ElementBorder, ElementKind, ElementView, Region, SubElementView,
};
use crate::ui::shape_2d::{
    hex_point_reach, hexagon_vertices, rectangle_vertices, Shape2d, COORD_LIMIT,
};

verus! {

/// The spec-level image of the text field `TextField::new` builds: a
/// white rectangle, slightly inset and drawn in front of its parent
/// panel, carrying the editable text.
pub open spec fn text_field_view(
    anchor_pos: (i32, i32, i32),
    offset: (i32, i32),
    width_mn: u32,
    text: Seq<char>,
) -> ElementView {
    let full_w = width_mn + 2400;
    let rx = full_w / 2;
    let cx = anchor_pos.0 + offset.0 + 60;
    let cy = anchor_pos.1 + offset.1;
    ElementView {
        kind: ElementKind::TextField,
        region: Region {
            x_lo: (cx - rx) as i32,
            x_hi: (cx + rx) as i32,
            y_lo: (cy - 400) as i32,
            y_hi: (cy + 400) as i32,
        },
        anchor: anchor_pos,
        offset: ((offset.0 + 60) as i32, offset.1, 0i32),
        shape_vertices: rectangle_vertices(800, full_w as int, -100i32, (255u8, 255u8, 255u8, 255u8)),
        shape_indices: seq![0u16, 1u16, 2u16, 0u16, 2u16, 3u16],
        border: Some(
            ElementBorder { thickness_mn: 50, color: (0u8, 0u8, 0u8, 255u8), visible: false },
        ),
        text,
        text_offset: ((160 - rx) as i32, 0i32),
        mouse_focus: false,
        keybd_focus: false,
        mouse_handler_some: false,
        keyboard_handler_some: false,
        subs: Seq::empty(),
    }
}

/// A hexagonal panel with a label and an editable text field nested
/// inside it.
pub struct TextBox;

/// The rectangular, editable text area a `TextBox` nests.
pub struct TextField;

impl TextBox {
    /// Build a text-box element: a hexagon panel carrying the label,
    /// with the text field appended as its one sub-element. Attaching a
    /// keyboard handler to the result routes typing into the field's
    /// text.
    pub fn new<M, K>(
        anchor_pos: (i32, i32, i32),
        offset: (i32, i32),
        extra_width_mn: u32,
        label: &str,
        color: (u8, u8, u8, u8),
        sub_text_string: &str,
    ) -> (r: Element<M, K>)
        requires
            -COORD_LIMIT / 2 <= anchor_pos.0 <= COORD_LIMIT / 2,
            -COORD_LIMIT / 2 <= anchor_pos.1 <= COORD_LIMIT / 2,
            -COORD_LIMIT / 2 <= anchor_pos.2 <= COORD_LIMIT / 2,
            -COORD_LIMIT / 2 <= offset.0 <= COORD_LIMIT / 2,
            -COORD_LIMIT / 2 <= offset.1 <= COORD_LIMIT / 2,
            extra_width_mn <= COORD_LIMIT / 2,
        ensures
            r.wf(),
            r@ == (ElementView {
                kind: ElementKind::TextBox,
                region: text_box_region(anchor_pos, offset, extra_width_mn),
                anchor: anchor_pos,
                offset: (offset.0, offset.1, 0i32),
                shape_vertices: hexagon_vertices(1000, extra_width_mn as int, 0i32, color),
                shape_indices: seq![
                    0u16, 1u16, 2u16,
                    0u16, 2u16, 3u16,
                    0u16, 3u16, 4u16,
                    0u16, 4u16, 5u16,
                ],
                border: None,
                text: label@,
                text_offset: ((-((extra_width_mn / 2) as i32) - 1500) as i32, 0i32),
                mouse_focus: false,
                keybd_focus: false,
                mouse_handler_some: false,
                keyboard_handler_some: false,
                subs: seq![
                    sub_view_of(
                        text_field_view(anchor_pos, offset, extra_width_mn, sub_text_string@),
                    ),
                ],
            }),
    {
        let shape = Shape2d::hexagon_panel(1000, extra_width_mn, 0, color);
        let tf = TextField::new(anchor_pos, offset, extra_width_mn, sub_text_string);
        proof {
            Element::lemma_leaf_view(&tf);
        }
        let half_ew: i32 = (extra_width_mn / 2) as i32;
        let r = Element::new(
            ElementKind::TextBox,
            anchor_pos,
            (offset.0, offset.1, 0),
            shape,
        ).text_string(label).text_offset((-half_ew - 1500, 0)).sub(tf);
        proof {
            assert(r@.subs =~= seq![
                sub_view_of(
                    text_field_view(anchor_pos, offset, extra_width_mn, sub_text_string@),
                ),
            ]);
        }
        r
    }
}

/// The hit region of the text box's hexagon panel.
pub open spec fn text_box_region(
    anchor_pos: (i32, i32, i32),
    offset: (i32, i32),
    extra_width_mn: u32,
) -> Region {
    let rx = extra_width_mn / 2 + hex_point_reach(1000);
    let cx = anchor_pos.0 + offset.0;
    let cy = anchor_pos.1 + offset.1;
    Region {
        x_lo: (cx - rx) as i32,
        x_hi: (cx + rx) as i32,
        y_lo: (cy - 500) as i32,
        y_hi: (cy + 500) as i32,
    }
}

/// The leaf image with the same fields as a full element view.
pub open spec fn sub_view_of(v: ElementView) -> SubElementView {
    SubElementView {
        kind: v.kind,
        region: v.region,
        anchor: v.anchor,
        offset: v.offset,
        shape_vertices: v.shape_vertices,
        shape_indices: v.shape_indices,
        border: v.border,
        text: v.text,
        text_offset: v.text_offset,
        mouse_focus: v.mouse_focus,
        keybd_focus: v.keybd_focus,
        mouse_handler_some: v.mouse_handler_some,
        keyboard_handler_some: v.keyboard_handler_some,
    }
}

impl TextField {
    /// Build the editable text area: a white rectangle a little wider
    /// than the panel's flat section, inset to the right and drawn in
    /// front, with an invisible border reserved for focus styling.
    pub fn new<M, K>(
        anchor_pos: (i32, i32, i32),
        offset: (i32, i32),
        width_mn: u32,
        text_string: &str,
    ) -> (r: Element<M, K>)
        requires
            -COORD_LIMIT / 2 <= anchor_pos.0 <= COORD_LIMIT / 2,
            -COORD_LIMIT / 2 <= anchor_pos.1 <= COORD_LIMIT / 2,
            -COORD_LIMIT / 2 <= anchor_pos.2 <= COORD_LIMIT / 2,
            -COORD_LIMIT / 2 <= offset.0 <= COORD_LIMIT / 2,
            -COORD_LIMIT / 2 <= offset.1 <= COORD_LIMIT / 2,
            width_mn <= COORD_LIMIT / 2,
        ensures
            r.wf(),
            r@ == text_field_view(anchor_pos, offset, width_mn, text_string@),
    {
        let color = (255u8, 255u8, 255u8, 255u8);
        let shape = Shape2d::rectangle(800, width_mn + 2400, -100, color);
        let text_off_x: i32 = 160 - (((width_mn + 2400) / 2) as i32);
        let new_offset = (offset.0 + 60, offset.1, 0);
        let r = Element::new(ElementKind::TextField, anchor_pos, new_offset, shape).border(
            50,
            (0, 0, 0, 255),
            false,
        ).text_offset((text_off_x, 0)).text_string(text_string);
        proof {
            assert(r@.subs =~= Seq::<SubElementView>::empty());
            assert(r@ =~= text_field_view(anchor_pos, offset, width_mn, text_string@));
        }
        r
    }
}

} // verus!

verus! {

/// A hexagonal push button.
pub struct HexButton;

/// A rectangular push button.
pub struct RectButton;

impl HexButton {
    /// Build a hexagon-panel button carrying a centered label.
    pub fn new<M, K>(
        anchor_pos: (i32, i32, i32),
        offset: (i32, i32),
        extra_width_mn: u32,
        label: &str,
        color: (u8, u8, u8, u8),
    ) -> (r: Element<M, K>)
        requires
            -COORD_LIMIT / 2 <= anchor_pos.0 <= COORD_LIMIT / 2,
            -COORD_LIMIT / 2 <= anchor_pos.1 <= COORD_LIMIT / 2,
            -COORD_LIMIT / 2 <= anchor_pos.2 <= COORD_LIMIT / 2,
            -COORD_LIMIT / 2 <= offset.0 <= COORD_LIMIT / 2,
            -COORD_LIMIT / 2 <= offset.1 <= COORD_LIMIT / 2,
            extra_width_mn <= COORD_LIMIT / 2,
        ensures
            r.wf(),
            r@ == (ElementView {
                kind: ElementKind::HexButton,
                region: text_box_region(anchor_pos, offset, extra_width_mn),
                anchor: anchor_pos,
                offset: (offset.0, offset.1, 0i32),
                shape_vertices: hexagon_vertices(1000, extra_width_mn as int, 0i32, color),
                shape_indices: seq![
                    0u16, 1u16, 2u16,
                    0u16, 2u16, 3u16,
                    0u16, 3u16, 4u16,
                    0u16, 4u16, 5u16,
                ],
                border: None,
                text: label@,
                text_offset: (0i32, 0i32),
                mouse_focus: false,
                keybd_focus: false,
                mouse_handler_some: false,
                keyboard_handler_some: false,
                subs: Seq::empty(),
            }),
    {
        let shape = Shape2d::hexagon_panel(1000, extra_width_mn, 0, color);
        let r = Element::new(
            ElementKind::HexButton,
            anchor_pos,
            (offset.0, offset.1, 0),
            shape,
        ).text_string(label);
        proof {
            assert(r@.subs =~= Seq::<SubElementView>::empty());
        }
        r
    }
}

impl RectButton {
    /// Build a rectangular button carrying a centered label.
    pub fn new<M, K>(
        anchor_pos: (i32, i32, i32),
        offset: (i32, i32),
        width_mn: u32,
        label: &str,
        color: (u8, u8, u8, u8),
    ) -> (r: Element<M, K>)
        requires
            -COORD_LIMIT / 2 <= anchor_pos.0 <= COORD_LIMIT / 2,
            -COORD_LIMIT / 2 <= anchor_pos.1 <= COORD_LIMIT / 2,
            -COORD_LIMIT / 2 <= anchor_pos.2 <= COORD_LIMIT / 2,
            -COORD_LIMIT / 2 <= offset.0 <= COORD_LIMIT / 2,
            -COORD_LIMIT / 2 <= offset.1 <= COORD_LIMIT / 2,
            width_mn <= COORD_LIMIT / 2,
        ensures
            r.wf(),
            r@ == (ElementView {
                kind: ElementKind::RectButton,
                region: Region {
                    x_lo: (anchor_pos.0 + offset.0 - width_mn / 2) as i32,
                    x_hi: (anchor_pos.0 + offset.0 + width_mn / 2) as i32,
                    y_lo: (anchor_pos.1 + offset.1 - 300) as i32,
                    y_hi: (anchor_pos.1 + offset.1 + 300) as i32,
                },
                anchor: anchor_pos,
                offset: (offset.0, offset.1, 0i32),
                shape_vertices: rectangle_vertices(600, width_mn as int, 0i32, color),
                shape_indices: seq![0u16, 1u16, 2u16, 0u16, 2u16, 3u16],
                border: None,
                text: label@,
                text_offset: (0i32, 0i32),
                mouse_focus: false,
                keybd_focus: false,
                mouse_handler_some: false,
                keyboard_handler_some: false,
                subs: Seq::empty(),
            }),
    {
        let shape = Shape2d::rectangle(600, width_mn, 0, color);
        let r = Element::new(
            ElementKind::RectButton,
            anchor_pos,
            (offset.0, offset.1, 0),
            shape,
        ).text_string(label);
        proof {
            assert(r@.subs =~= Seq::<SubElementView>::empty());
        }
        r
    }
}

} // verus!
