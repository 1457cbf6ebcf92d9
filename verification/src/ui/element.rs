//! A positioned, shaped, optionally labeled interface node: hit region,
//! focus flags, optional handlers, and one level of nested sub-elements.

use vstd::prelude::*;

use crate::ui::enums::{HandlerOption, UiRequest};
use crate::ui::events::{ElementState, MouseButton, VirtualKeyCode};
use crate::ui::keyboard_state::KeyboardState;
use crate::ui::traits::{EventRemainder, KeyboardEventHandler, MouseEventHandler};
use crate::ui::fixedpoint::{
    lemma_scale_trunc_bound, lemma_scale_trunc_shrinks, muldiv_trunc, ratio_le, ratio_le_exec,
    scale_trunc,
};
use crate::ui::mouse_state::NormPoint;
use crate::ui::shape_2d::{vertex_bounded, Shape2d, COORD_LIMIT};
use crate::ui::vertex::Vertex;
use vstd::math::abs;

verus! {

/// An axis-aligned hit region in millinorm units: the bounds are
/// thousandths of the normalized coordinate range.
#[derive(Clone, Copy, Debug, PartialEq, Eq, Structural)]
pub struct Region {
    pub x_lo: i32,
    pub x_hi: i32,
    pub y_lo: i32,
    pub y_hi: i32,
}

impl Region {
    /// A point is inside when each of its exact rational coordinates lies
    /// between the bounds.
    pub open spec fn spec_contains(self, p: NormPoint) -> bool {
        &&& ratio_le(self.x_lo as int, 1000, p.x_num as int, p.x_den as int)
        &&& ratio_le(p.x_num as int, p.x_den as int, self.x_hi as int, 1000)
        &&& ratio_le(self.y_lo as int, 1000, p.y_num as int, p.y_den as int)
        &&& ratio_le(p.y_num as int, p.y_den as int, self.y_hi as int, 1000)
    }

    /// Hit-test a normalized point against the region.
    pub fn contains(&self, p: &NormPoint) -> (r: bool)
        requires
            p.wf(),
        ensures
            r == self.spec_contains(*p),
    {
        ratio_le_exec(self.x_lo as i64, 1000, p.x_num, p.x_den) && ratio_le_exec(
            p.x_num,
            p.x_den,
            self.x_hi as i64,
            1000,
        ) && ratio_le_exec(self.y_lo as i64, 1000, p.y_num, p.y_den) && ratio_le_exec(
            p.y_num,
            p.y_den,
            self.y_hi as i64,
            1000,
        )
    }
}

/// An optional border drawn around an element's shape.
#[derive(Clone, Copy, Debug, PartialEq, Eq)]
pub struct ElementBorder {
    /// Border thickness in millinorm units.
    pub thickness_mn: i32,
    pub color: (u8, u8, u8, u8),
    pub visible: bool,
}

/// What sort of control an element is. The pane treats all kinds alike;
/// the kind only informs the embedding layer's styling.
#[derive(Clone, Copy, Debug, PartialEq, Eq, Structural)]
pub enum ElementKind {
    Button,
    HexButton,
    RectButton,
    TextBox,
    TextField,
    Panel,
}

/// The spec-level image of a nested sub-element.
#[verifier::ext_equal]
pub ghost struct SubElementView {
    pub kind: ElementKind,
    pub region: Region,
    pub anchor: (i32, i32, i32),
    pub offset: (i32, i32, i32),
    pub shape_vertices: Seq<Vertex>,
    pub shape_indices: Seq<u16>,
    pub border: Option<ElementBorder>,
    pub text: Seq<char>,
    pub text_offset: (i32, i32),
    pub mouse_focus: bool,
    pub keybd_focus: bool,
    pub mouse_handler_some: bool,
    pub keyboard_handler_some: bool,
}

/// The spec-level image of an element: everything the pane's contracts
/// speak about. Handler payloads (caller state) are abstracted to their
/// presence.
#[verifier::ext_equal]
pub ghost struct ElementView {
    pub kind: ElementKind,
    pub region: Region,
    pub anchor: (i32, i32, i32),
    pub offset: (i32, i32, i32),
    pub shape_vertices: Seq<Vertex>,
    pub shape_indices: Seq<u16>,
    pub border: Option<ElementBorder>,
    pub text: Seq<char>,
    pub text_offset: (i32, i32),
    pub mouse_focus: bool,
    pub keybd_focus: bool,
    pub mouse_handler_some: bool,
    pub keyboard_handler_some: bool,
    pub subs: Seq<SubElementView>,
}

impl ElementView {
    /// The two views differ at most in the element's own text and its
    /// sub-elements' texts: geometry, focus flags and handler slots all
    /// agree.
    pub open spec fn text_edit_of(self, pre: ElementView) -> bool {
        &&& self == (ElementView { text: self.text, subs: self.subs, ..pre })
        &&& self.subs.len() == pre.subs.len()
        &&& forall|i: int|
            0 <= i < self.subs.len() ==> #[trigger] self.subs[i] == (SubElementView {
                text: self.subs[i].text,
                ..pre.subs[i]
            })
    }
}

/// An interface element: shape geometry anchored at a caller-specified
/// position, an axis-aligned hit region derived from the shape's extents,
/// optional text, optional border, visual focus flags, optional handlers,
/// and an ordered list of nested sub-elements (one level deep).
pub struct Element<M, K> {
    kind: ElementKind,
    shape: Shape2d,
    anchor: (i32, i32, i32),
    offset: (i32, i32, i32),
    text: String,
    text_offset: (i32, i32),
    border: Option<ElementBorder>,
    mouse_focus: bool,
    keybd_focus: bool,
    mouse_handler: HandlerOption<M>,
    keyboard_handler: HandlerOption<K>,
    sub_elements: Vec<Element<M, K>>,
    region: Region,
}

impl<M, K> Element<M, K> {
    /// The spec-level image of a sub-element (which owns no further
    /// sub-elements).
    pub closed spec fn leaf_view(self) -> SubElementView {
        SubElementView {
            kind: self.kind,
            region: self.region,
            anchor: self.anchor,
            offset: self.offset,
            shape_vertices: self.shape.vertices@,
            shape_indices: self.shape.indices@,
            border: self.border,
            text: self.text@,
            text_offset: self.text_offset,
            mouse_focus: self.mouse_focus,
            keybd_focus: self.keybd_focus,
            mouse_handler_some: !(self.mouse_handler is Absent),
            keyboard_handler_some: !(self.keyboard_handler is Absent),
        }
    }

    /// Well-formedness of a sub-element: a bounded, well-formed shape and
    /// no further nesting.
    pub closed spec fn leaf_wf(self) -> bool {
        &&& self.shape.wf()
        &&& -COORD_LIMIT <= self.anchor.0 <= COORD_LIMIT
        &&& -COORD_LIMIT <= self.anchor.1 <= COORD_LIMIT
        &&& -COORD_LIMIT <= self.anchor.2 <= COORD_LIMIT
        &&& -COORD_LIMIT <= self.offset.0 <= COORD_LIMIT
        &&& -COORD_LIMIT <= self.offset.1 <= COORD_LIMIT
        &&& -COORD_LIMIT <= self.offset.2 <= COORD_LIMIT
        &&& self.sub_elements@.len() == 0
    }

    /// Well-formedness: bounded geometry, and every sub-element is itself
    /// a well-formed leaf.
    pub closed spec fn wf(self) -> bool {
        &&& self.shape.wf()
        &&& -COORD_LIMIT <= self.anchor.0 <= COORD_LIMIT
        &&& -COORD_LIMIT <= self.anchor.1 <= COORD_LIMIT
        &&& -COORD_LIMIT <= self.anchor.2 <= COORD_LIMIT
        &&& -COORD_LIMIT <= self.offset.0 <= COORD_LIMIT
        &&& -COORD_LIMIT <= self.offset.1 <= COORD_LIMIT
        &&& -COORD_LIMIT <= self.offset.2 <= COORD_LIMIT
        &&& self.sub_elements@.len() <= 0xFFFF
        &&& forall|i: int|
            0 <= i < self.sub_elements@.len() ==> (#[trigger] self.sub_elements@[i]).leaf_wf()
    }
}

impl<M, K> View for Element<M, K> {
    type V = ElementView;

    closed spec fn view(&self) -> ElementView {
        ElementView {
            kind: self.kind,
            region: self.region,
            anchor: self.anchor,
            offset: self.offset,
            shape_vertices: self.shape.vertices@,
            shape_indices: self.shape.indices@,
            border: self.border,
            text: self.text@,
            text_offset: self.text_offset,
            mouse_focus: self.mouse_focus,
            keybd_focus: self.keybd_focus,
            mouse_handler_some: !(self.mouse_handler is Absent),
            keyboard_handler_some: !(self.keyboard_handler is Absent),
            subs: self.sub_elements@.map(|i: int, s: Element<M, K>| s.leaf_view()),
        }
    }
}

impl<M, K> Element<M, K> {
    /// A bare element: the given shape anchored at `anchor + offset`, the
    /// hit region set to the shape's extents around that point, no text,
    /// no border, no focus, no handlers, no sub-elements.
    pub fn new(
        kind: ElementKind,
        anchor: (i32, i32, i32),
        offset: (i32, i32, i32),
        shape: Shape2d,
    ) -> (r: Element<M, K>)
        requires
            shape.wf(),
            -COORD_LIMIT <= anchor.0 <= COORD_LIMIT,
            -COORD_LIMIT <= anchor.1 <= COORD_LIMIT,
            -COORD_LIMIT <= anchor.2 <= COORD_LIMIT,
            -COORD_LIMIT <= offset.0 <= COORD_LIMIT,
            -COORD_LIMIT <= offset.1 <= COORD_LIMIT,
            -COORD_LIMIT <= offset.2 <= COORD_LIMIT,
        ensures
            r.wf(),
            r@ == (ElementView {
                kind,
                region: Region {
                    x_lo: (anchor.0 + offset.0 - shape.radii.0) as i32,
                    x_hi: (anchor.0 + offset.0 + shape.radii.0) as i32,
                    y_lo: (anchor.1 + offset.1 - shape.radii.1) as i32,
                    y_hi: (anchor.1 + offset.1 + shape.radii.1) as i32,
                },
                anchor,
                offset,
                shape_vertices: shape.vertices@,
                shape_indices: shape.indices@,
                border: None,
                text: Seq::empty(),
                text_offset: (0i32, 0i32),
                mouse_focus: false,
                keybd_focus: false,
                mouse_handler_some: false,
                keyboard_handler_some: false,
                subs: Seq::empty(),
            }),
    {
        let cx = anchor.0 + offset.0;
        let cy = anchor.1 + offset.1;
        let region = Region {
            x_lo: cx - shape.radii.0,
            x_hi: cx + shape.radii.0,
            y_lo: cy - shape.radii.1,
            y_hi: cy + shape.radii.1,
        };
        let r = Element {
            kind,
            shape,
            anchor,
            offset,
            text: String::new(),
            text_offset: (0, 0),
            border: None,
            mouse_focus: false,
            keybd_focus: false,
            mouse_handler: HandlerOption::Absent,
            keyboard_handler: HandlerOption::Absent,
            sub_elements: Vec::new(),
            region,
        };
        assert(r@.subs =~= Seq::<SubElementView>::empty());
        assert(r@.text =~= Seq::<char>::empty());
        r
    }

    /// Replace the element's label text.
    pub fn text_string(self, s: &str) -> (r: Element<M, K>)
        ensures
            r@ == (ElementView { text: s@, ..self@ }),
            r.wf() == self.wf(),
    {
        Element { text: s.to_owned(), ..self }
    }

    /// Move the label relative to the element's center.
    pub fn text_offset(self, o: (i32, i32)) -> (r: Element<M, K>)
        ensures
            r@ == (ElementView { text_offset: o, ..self@ }),
            r.wf() == self.wf(),
    {
        Element { text_offset: o, ..self }
    }

    /// Give the element a border.
    pub fn border(self, thickness_mn: i32, color: (u8, u8, u8, u8), visible: bool) -> (r: Element<
        M,
        K,
    >)
        ensures
            r@ == (ElementView {
                border: Some(ElementBorder { thickness_mn, color, visible }),
                ..self@
            }),
            r.wf() == self.wf(),
    {
        Element { border: Some(ElementBorder { thickness_mn, color, visible }), ..self }
    }

    /// Append a nested sub-element. The sub-element must itself be a
    /// well-formed leaf.
    pub fn sub(self, sub: Element<M, K>) -> (r: Element<M, K>)
        requires
            sub.wf(),
            sub@.subs.len() == 0,
            self@.subs.len() < 0xFFFF,
        ensures
            r@ == (ElementView { subs: self@.subs.push(sub.leaf_view()), ..self@ }),
            self.wf() ==> r.wf(),
    {
        let mut r = self;
        r.sub_elements.push(sub);
        assert(r@.subs =~= self@.subs.push(sub.leaf_view()));
        assert(self.wf() ==> r.wf()) by {
            if self.wf() {
                assert(sub.leaf_wf());
                assert(forall|i: int|
                    0 <= i < r.sub_elements@.len() ==> (
                    #[trigger] r.sub_elements@[i]).leaf_wf());
            }
        }
        r
    }

    /// Attach a mouse handler to the element itself.
    pub fn mouse_event_handler(self, h: M) -> (r: Element<M, K>)
        ensures
            r@ == (ElementView { mouse_handler_some: true, ..self@ }),
            r.wf() == self.wf(),
    {
        let r = Element { mouse_handler: HandlerOption::Fn(h), ..self };
        assert(r@ =~= ElementView { mouse_handler_some: true, ..self@ });
        r
    }

    /// Attach a keyboard handler. On an element without sub-elements the
    /// handler edits the element's own text; on an element with
    /// sub-elements it is attached to the last sub-element (whose text it
    /// edits) and the element's own slot records the delegation.
    pub fn keyboard_event_handler(self, h: K) -> (r: Element<M, K>)
        ensures
            r@.keyboard_handler_some,
            self@.subs.len() == 0 ==> r@ == (ElementView { keyboard_handler_some: true, ..self@ }),
            self@.subs.len() > 0 ==> r@ == (ElementView {
                keyboard_handler_some: true,
                subs: self@.subs.update(
                    self@.subs.len() - 1,
                    SubElementView {
                        keyboard_handler_some: true,
                        ..self@.subs[self@.subs.len() - 1]
                    },
                ),
                ..self@
            }),
            self.wf() ==> r.wf(),
    {
        let mut r = self;
        let n = r.sub_elements.len();
        if n == 0 {
            r.keyboard_handler = HandlerOption::Fn(h);
            assert(r@ =~= ElementView { keyboard_handler_some: true, ..self@ });
            r
        } else {
            let last = &mut r.sub_elements[n - 1];
            last.keyboard_handler = HandlerOption::Fn(h);
            r.keyboard_handler = HandlerOption::Sub(n - 1);
            assert(r@.subs =~= self@.subs.update(
                self@.subs.len() - 1,
                SubElementView {
                    keyboard_handler_some: true,
                    ..self@.subs[self@.subs.len() - 1]
                },
            ));
            proof {
                if self.wf() {
                    assert forall|i: int| 0 <= i < r.sub_elements@.len() implies (
                    #[trigger] r.sub_elements@[i]).leaf_wf() by {
                        assert(self.sub_elements@[i].leaf_wf());
                        if i == n - 1 {
                            assert(r.sub_elements@[i].leaf_wf());
                        }
                    }
                }
            }
            r
        }
    }

    /// Set the visual mouse-focus flag. Only the focus coordinator calls
    /// this, keeping a single source of truth.
    pub fn set_mouse_focus(&mut self, focus: bool)
        ensures
            final(self)@ == (ElementView { mouse_focus: focus, ..old(self)@ }),
            final(self).wf() == old(self).wf(),
    {
        self.mouse_focus = focus;
    }

    /// Set the visual keyboard-focus flag. Only the focus coordinator
    /// calls this.
    pub fn set_keybd_focus(&mut self, focus: bool)
        ensures
            final(self)@ == (ElementView { keybd_focus: focus, ..old(self)@ }),
            final(self).wf() == old(self).wf(),
    {
        self.keybd_focus = focus;
    }

    /// Whether the pointer position lies in the element's hit region.
    pub fn has_mouse_focus(&self, p: &NormPoint) -> (r: bool)
        requires
            p.wf(),
        ensures
            r == self@.region.spec_contains(*p),
    {
        self.region.contains(p)
    }

    /// The element's label text.
    pub fn get_text(&self) -> (r: &String)
        ensures
            r@ == self@.text,
    {
        &self.text
    }

    /// The hit region.
    pub fn hit_region(&self) -> (r: Region)
        ensures
            r == self@.region,
    {
        self.region
    }
}

} // verus!

verus! {

/// The largest UI scale the pane accepts, in permille: a ten-fold
/// magnification.
pub const SCALE_LIMIT_PERMILLE: u32 = 10_000;

/// The screen-space image of one local-space vertex: the local position is
/// scaled by the UI scale (permille), shifted by the element's offset,
/// corrected for the surface's aspect ratio (the shorter dimension over
/// the axis's own dimension), and anchored. Depth is passed through
/// unscaled, as are the color and the normal.
pub open spec fn transform_vertex(
    v: Vertex,
    anchor: (i32, i32, i32),
    offset: (i32, i32, i32),
    dims: (u32, u32),
    scale: u32,
) -> Vertex {
    let m = vstd::math::min(dims.0 as int, dims.1 as int);
    let sx = scale_trunc(v.position.0 as int, scale as int, 1000);
    let sy = scale_trunc(v.position.1 as int, scale as int, 1000);
    let x = anchor.0 + scale_trunc(offset.0 + sx, m, dims.0 as int);
    let y = anchor.1 + scale_trunc(offset.1 + sy, m, dims.1 as int);
    let z = anchor.2 + offset.2 + v.position.2;
    Vertex {
        position: (x as i32, y as i32, z as i32),
        color: v.color,
        xy_normal: v.xy_normal,
    }
}

/// A whole vertex list pushed through `transform_vertex`.
pub open spec fn transformed(
    vs: Seq<Vertex>,
    anchor: (i32, i32, i32),
    offset: (i32, i32, i32),
    dims: (u32, u32),
    scale: u32,
) -> Seq<Vertex> {
    vs.map_values(|v: Vertex| transform_vertex(v, anchor, offset, dims, scale))
}

/// A whole index list shifted up by `base`.
pub open spec fn shifted(ixs: Seq<u16>, base: int) -> Seq<u16> {
    ixs.map_values(|ix: u16| (ix + base) as u16)
}

/// Compute `transform_vertex` on real integers.
fn transform_vertex_exec(
    v: &Vertex,
    anchor: (i32, i32, i32),
    offset: (i32, i32, i32),
    dims: (u32, u32),
    scale: u32,
) -> (r: Vertex)
    requires
        vertex_bounded(*v),
        -COORD_LIMIT <= anchor.0 <= COORD_LIMIT,
        -COORD_LIMIT <= anchor.1 <= COORD_LIMIT,
        -COORD_LIMIT <= anchor.2 <= COORD_LIMIT,
        -COORD_LIMIT <= offset.0 <= COORD_LIMIT,
        -COORD_LIMIT <= offset.1 <= COORD_LIMIT,
        -COORD_LIMIT <= offset.2 <= COORD_LIMIT,
        dims.0 >= 1,
        dims.1 >= 1,
        scale <= SCALE_LIMIT_PERMILLE,
    ensures
        r == transform_vertex(*v, anchor, offset, dims, scale),
{
    let m: u32 = if dims.0 <= dims.1 {
        dims.0
    } else {
        dims.1
    };
    proof {
        lemma_scale_trunc_bound(v.position.0 as int, scale as int, 1000, 10);
        lemma_scale_trunc_bound(v.position.1 as int, scale as int, 1000, 10);
    }
    let sx: i64 = muldiv_trunc(v.position.0 as i64, scale as u64, 1000);
    let sy: i64 = muldiv_trunc(v.position.1 as i64, scale as u64, 1000);
    let tx: i64 = (offset.0 as i64) + sx;
    let ty: i64 = (offset.1 as i64) + sy;
    assert(abs(tx as int) * (m as int) <= i64::MAX && abs(ty as int) * (m as int) <= i64::MAX)
        by (nonlinear_arith)
        requires
            abs(tx as int) <= 11 * (COORD_LIMIT as int),
            abs(ty as int) <= 11 * (COORD_LIMIT as int),
            (m as int) < 0x1_0000_0000,
    ;
    proof {
        lemma_scale_trunc_shrinks(tx as int, m as int, dims.0 as int);
        lemma_scale_trunc_shrinks(ty as int, m as int, dims.1 as int);
    }
    let ax: i64 = muldiv_trunc(tx, m as u64, dims.0 as u64);
    let ay: i64 = muldiv_trunc(ty, m as u64, dims.1 as u64);
    let x: i64 = (anchor.0 as i64) + ax;
    let y: i64 = (anchor.1 as i64) + ay;
    let z: i64 = (anchor.2 as i64) + (offset.2 as i64) + (v.position.2 as i64);
    Vertex::new((x as i32, y as i32, z as i32), v.color, v.xy_normal)
}

} // verus!

verus! {

/// The concatenated own-vertex lists of a run of sub-elements.
pub open spec fn subs_own_vertices<M, K>(
    subs: Seq<Element<M, K>>,
    dims: (u32, u32),
    scale: u32,
) -> Seq<Vertex>
    decreases subs.len(),
{
    if subs.len() == 0 {
        Seq::empty()
    } else {
        subs_own_vertices(subs.drop_last(), dims, scale) + subs.last().spec_own_vertices(
            dims,
            scale,
        )
    }
}

/// The summed vertex counts of a run of sub-elements.
pub open spec fn subs_vertex_count<M, K>(subs: Seq<Element<M, K>>) -> nat
    decreases subs.len(),
{
    if subs.len() == 0 {
        0
    } else {
        subs_vertex_count(subs.drop_last()) + subs.last()@.shape_vertices.len()
    }
}

/// The concatenated shifted index lists of a run of sub-elements, with the
/// base advancing past each sub-element's vertices.
pub open spec fn subs_shifted_indices<M, K>(subs: Seq<Element<M, K>>, base: int) -> Seq<u16>
    decreases subs.len(),
{
    if subs.len() == 0 {
        Seq::empty()
    } else {
        subs_shifted_indices(subs.drop_last(), base) + shifted(
            subs.last()@.shape_indices,
            base + subs_vertex_count(subs.drop_last()),
        )
    }
}

/// A prefix never counts more vertices than the whole run.
proof fn lemma_subs_vertex_count_prefix_le<M, K>(subs: Seq<Element<M, K>>, j: int)
    requires
        0 <= j <= subs.len(),
    ensures
        subs_vertex_count(subs.subrange(0, j)) <= subs_vertex_count(subs),
    decreases subs.len() - j,
{
    if j == subs.len() {
        assert(subs.subrange(0, j) =~= subs);
    } else {
        lemma_subs_vertex_count_prefix_le(subs, j + 1);
        assert(subs.subrange(0, j + 1).drop_last() =~= subs.subrange(0, j));
        assert(subs_vertex_count(subs.subrange(0, j + 1)) == subs_vertex_count(
            subs.subrange(0, j),
        ) + subs.subrange(0, j + 1).last()@.shape_vertices.len());
    }
}

/// The concatenated sub-vertex list is as long as the summed counts say.
proof fn lemma_subs_own_vertices_len<M, K>(subs: Seq<Element<M, K>>, dims: (u32, u32), scale: u32)
    ensures
        subs_own_vertices(subs, dims, scale).len() == subs_vertex_count(subs),
    decreases subs.len(),
{
    if subs.len() > 0 {
        lemma_subs_own_vertices_len(subs.drop_last(), dims, scale);
    }
}

impl<M, K> Element<M, K> {
    /// The element's own screen-space vertices, before its sub-elements'.
    pub closed spec fn spec_own_vertices(self, dims: (u32, u32), scale: u32) -> Seq<Vertex> {
        transformed(self.shape.vertices@, self.anchor, self.offset, dims, scale)
    }

    /// Everything the element emits: its own vertices, then each
    /// sub-element's, in order.
    pub closed spec fn spec_vertices(self, dims: (u32, u32), scale: u32) -> Seq<Vertex> {
        self.spec_own_vertices(dims, scale) + subs_own_vertices(self.sub_elements@, dims, scale)
    }

    /// How many vertices the element emits, sub-elements included.
    pub closed spec fn spec_vertex_count(self) -> nat {
        self.shape.vertices@.len() + subs_vertex_count(self.sub_elements@)
    }

    /// The element's index list rebased to `base`: its own triangles
    /// shifted by `base`, then each sub-element's shifted past all the
    /// vertices emitted before it.
    pub closed spec fn spec_indices(self, base: int) -> Seq<u16> {
        shifted(self.shape.indices@, base) + subs_shifted_indices(
            self.sub_elements@,
            base + self.shape.vertices@.len(),
        )
    }

    /// How many vertices the element will emit.
    pub fn vertex_count(&self) -> (r: usize)
        requires
            self.wf(),
        ensures
            r == self.spec_vertex_count(),
            r <= 0xFFFF * 0x1_0000,
    {
        let mut count: usize = self.shape.vertices.len();
        let n = self.sub_elements.len();
        proof {
            assert(self.sub_elements@.subrange(0, 0) =~= Seq::<Element<M, K>>::empty());
        }
        for j in 0..n
            invariant
                self.wf(),
                n == self.sub_elements@.len(),
                count == self.shape.vertices@.len() + subs_vertex_count(
                    self.sub_elements@.subrange(0, j as int),
                ),
                count <= 0xFFFF + j * 0xFFFF,
        {
            proof {
                assert(self.sub_elements@[j as int].leaf_wf());
                assert(self.sub_elements@.subrange(0, j + 1).drop_last() =~= self.sub_elements@
                    .subrange(0, j as int));
                assert(self.sub_elements@.subrange(0, j + 1).last() == self.sub_elements@[
                    j as int]);
            }
            count = count + self.sub_elements[j].shape.vertices.len();
        }
        proof {
            assert(self.sub_elements@.subrange(0, n as int) =~= self.sub_elements@);
        }
        count
    }

    /// The element's emitted vertices for the given surface dimensions
    /// and UI scale: its own shape's, then each sub-element's, in order.
    #[verifier::loop_isolation(false)]
    pub fn vertices(&self, surface_dims: (u32, u32), scale: u32) -> (r: Vec<Vertex>)
        requires
            self.wf(),
            surface_dims.0 >= 1,
            surface_dims.1 >= 1,
            scale <= SCALE_LIMIT_PERMILLE,
        ensures
            r@ == self.spec_vertices(surface_dims, scale),
            r@.len() == self.spec_vertex_count(),
    {
        let mut out: Vec<Vertex> = Vec::new();
        let own_n = self.shape.vertices.len();
        proof {
            assert(self.shape.vertices@.subrange(0, 0) =~= Seq::<Vertex>::empty());
            assert(out@ =~= transformed(self.shape.vertices@.subrange(0, 0), self.anchor,
                self.offset, surface_dims, scale));
        }
        for i in 0..own_n
            invariant
                out@ == transformed(self.shape.vertices@.subrange(0, i as int), self.anchor,
                    self.offset, surface_dims, scale),
        {
            out.push(transform_vertex_exec(&self.shape.vertices[i], self.anchor, self.offset,
                surface_dims, scale));
            proof {
                assert(transformed(self.shape.vertices@.subrange(0, i + 1), self.anchor,
                    self.offset, surface_dims, scale) =~= transformed(self.shape.vertices@
                    .subrange(0, i as int), self.anchor, self.offset, surface_dims, scale).push(
                    transform_vertex(self.shape.vertices@[i as int], self.anchor, self.offset,
                    surface_dims, scale)));
            }
        }
        proof {
            assert(self.shape.vertices@.subrange(0, own_n as int) =~= self.shape.vertices@);
            assert(self.sub_elements@.subrange(0, 0) =~= Seq::<Element<M, K>>::empty());
            assert(out@ =~= self.spec_own_vertices(surface_dims, scale) + subs_own_vertices(
                self.sub_elements@.subrange(0, 0), surface_dims, scale));
        }
        let subs_n = self.sub_elements.len();
        for j in 0..subs_n
            invariant
                out@ == self.spec_own_vertices(surface_dims, scale) + subs_own_vertices(
                    self.sub_elements@.subrange(0, j as int), surface_dims, scale),
        {
            let sub = &self.sub_elements[j];
            proof {
                assert(self.sub_elements@[j as int].leaf_wf());
            }
            let sub_n = sub.shape.vertices.len();
            proof {
                assert(sub.shape.vertices@.subrange(0, 0) =~= Seq::<Vertex>::empty());
                assert(out@ =~= self.spec_own_vertices(surface_dims, scale) + subs_own_vertices(
                    self.sub_elements@.subrange(0, j as int), surface_dims, scale) + transformed(
                    sub.shape.vertices@.subrange(0, 0), sub.anchor, sub.offset, surface_dims,
                    scale));
            }
            for k in 0..sub_n
                invariant
                    out@ == self.spec_own_vertices(surface_dims, scale) + subs_own_vertices(
                        self.sub_elements@.subrange(0, j as int), surface_dims, scale)
                        + transformed(sub.shape.vertices@.subrange(0, k as int), sub.anchor,
                        sub.offset, surface_dims, scale),
            {
                out.push(transform_vertex_exec(&sub.shape.vertices[k], sub.anchor, sub.offset,
                    surface_dims, scale));
                proof {
                    assert(transformed(sub.shape.vertices@.subrange(0, k + 1), sub.anchor,
                        sub.offset, surface_dims, scale) =~= transformed(sub.shape.vertices@
                        .subrange(0, k as int), sub.anchor, sub.offset, surface_dims, scale).push(
                        transform_vertex(sub.shape.vertices@[k as int], sub.anchor, sub.offset,
                        surface_dims, scale)));
                    assert(out@ =~= self.spec_own_vertices(surface_dims, scale)
                        + subs_own_vertices(self.sub_elements@.subrange(0, j as int), surface_dims,
                        scale) + transformed(sub.shape.vertices@.subrange(0, k + 1), sub.anchor,
                        sub.offset, surface_dims, scale));
                }
            }
            proof {
                assert(sub.shape.vertices@.subrange(0, sub_n as int) =~= sub.shape.vertices@);
                assert(self.sub_elements@.subrange(0, j + 1).drop_last() =~= self.sub_elements@
                    .subrange(0, j as int));
                assert(self.sub_elements@.subrange(0, j + 1).last() == self.sub_elements@[
                    j as int]);
                assert(sub.spec_own_vertices(surface_dims, scale) == transformed(
                    sub.shape.vertices@, sub.anchor, sub.offset, surface_dims, scale));
                assert(out@ =~= self.spec_own_vertices(surface_dims, scale) + subs_own_vertices(
                    self.sub_elements@.subrange(0, j + 1), surface_dims, scale));
            }
        }
        proof {
            assert(self.sub_elements@.subrange(0, subs_n as int) =~= self.sub_elements@);
            lemma_subs_own_vertices_len(self.sub_elements@, surface_dims, scale);
        }
        out
    }
}

} // verus!

verus! {

impl<M, K> Element<M, K> {
    /// The element's triangle indices rebased so that its vertices start
    /// at `base` in the shared vertex buffer: its own triangles first,
    /// then each sub-element's, each shifted past all vertices emitted
    /// before it. The caller leaves enough room in the 16-bit index
    /// space.
    #[verifier::loop_isolation(false)]
    pub fn indices(&self, base: u16) -> (r: Vec<u16>)
        requires
            self.wf(),
            base + self.spec_vertex_count() <= 0x1_0000,
        ensures
            r@ == self.spec_indices(base as int),
    {
        let mut out: Vec<u16> = Vec::new();
        let own_n = self.shape.indices.len();
        proof {
            assert(self.shape.indices@.subrange(0, 0) =~= Seq::<u16>::empty());
            assert(out@ =~= shifted(self.shape.indices@.subrange(0, 0), base as int));
        }
        for i in 0..own_n
            invariant
                out@ == shifted(self.shape.indices@.subrange(0, i as int), base as int),
        {
            let ix = self.shape.indices[i];
            let val = (ix as usize) + (base as usize);
            proof {
                assert(ix < self.shape.vertices@.len());
            }
            out.push(val as u16);
            proof {
                assert(shifted(self.shape.indices@.subrange(0, i + 1), base as int) =~= shifted(
                    self.shape.indices@.subrange(0, i as int), base as int).push(
                    ((self.shape.indices@[i as int] + base) as u16)));
            }
        }
        let own_vlen = self.shape.vertices.len();
        let mut cur: usize = (base as usize) + own_vlen;
        let subs_n = self.sub_elements.len();
        proof {
            assert(self.shape.indices@.subrange(0, own_n as int) =~= self.shape.indices@);
            assert(self.sub_elements@.subrange(0, 0) =~= Seq::<Element<M, K>>::empty());
            assert(out@ =~= shifted(self.shape.indices@, base as int) + subs_shifted_indices(
                self.sub_elements@.subrange(0, 0), base + own_vlen));
        }
        for j in 0..subs_n
            invariant
                cur == base + self.shape.vertices@.len() + subs_vertex_count(
                    self.sub_elements@.subrange(0, j as int),
                ),
                out@ == shifted(self.shape.indices@, base as int) + subs_shifted_indices(
                    self.sub_elements@.subrange(0, j as int),
                    base + self.shape.vertices@.len(),
                ),
        {
            let sub = &self.sub_elements[j];
            proof {
                assert(self.sub_elements@[j as int].leaf_wf());
                lemma_subs_vertex_count_prefix_le(self.sub_elements@, j + 1);
                assert(self.sub_elements@.subrange(0, j + 1).drop_last() =~= self.sub_elements@
                    .subrange(0, j as int));
                assert(self.sub_elements@.subrange(0, j + 1).last() == self.sub_elements@[
                    j as int]);
                assert(subs_vertex_count(self.sub_elements@.subrange(0, j + 1))
                    == subs_vertex_count(self.sub_elements@.subrange(0, j as int)) + sub@
                    .shape_vertices.len());
            }
            let sub_in = sub.shape.indices.len();
            proof {
                assert(sub.shape.indices@.subrange(0, 0) =~= Seq::<u16>::empty());
                assert(out@ =~= shifted(self.shape.indices@, base as int) + subs_shifted_indices(
                    self.sub_elements@.subrange(0, j as int), base + self.shape.vertices@.len())
                    + shifted(sub.shape.indices@.subrange(0, 0), cur as int));
            }
            for k in 0..sub_in
                invariant
                    out@ == shifted(self.shape.indices@, base as int) + subs_shifted_indices(
                        self.sub_elements@.subrange(0, j as int),
                        base + self.shape.vertices@.len(),
                    ) + shifted(sub.shape.indices@.subrange(0, k as int), cur as int),
            {
                let ix = sub.shape.indices[k];
                proof {
                    assert(ix < sub.shape.vertices@.len());
                }
                let val = (ix as usize) + cur;
                out.push(val as u16);
                proof {
                    assert(shifted(sub.shape.indices@.subrange(0, k + 1), cur as int) =~= shifted(
                        sub.shape.indices@.subrange(0, k as int), cur as int).push(
                        ((sub.shape.indices@[k as int] + cur) as u16)));
                    assert(out@ =~= shifted(self.shape.indices@, base as int)
                        + subs_shifted_indices(self.sub_elements@.subrange(0, j as int), base
                        + self.shape.vertices@.len()) + shifted(sub.shape.indices@.subrange(0, k
                        + 1), cur as int));
                }
            }
            proof {
                assert(sub.shape.indices@.subrange(0, sub_in as int) =~= sub.shape.indices@);
                assert(out@ =~= shifted(self.shape.indices@, base as int) + subs_shifted_indices(
                    self.sub_elements@.subrange(0, j + 1), base + self.shape.vertices@.len()));
            }
            cur = cur + sub.shape.vertices.len();
        }
        proof {
            assert(self.sub_elements@.subrange(0, subs_n as int) =~= self.sub_elements@);
        }
        out
    }
}

} // verus!

verus! {

impl<M, K> Element<M, K> {
    /// Route a mouse-button event to the element's mouse handler: a
    /// handler on the element itself is called directly, a delegation is
    /// followed one level down, and with no handler the event is consumed
    /// into the default remainder with no instruction. The handler sees
    /// only the button transition, so the element's observable state is
    /// unchanged.
    pub fn handle_mouse_input<R: EventRemainder>(
        &mut self,
        state: ElementState,
        button: MouseButton,
    ) -> (r: (UiRequest, R)) where M: MouseEventHandler<R>
        ensures
            final(self)@ == old(self)@,
            old(self).wf() ==> final(self).wf(),
            !old(self)@.mouse_handler_some ==> r.0 == UiRequest::NoOp && r.1.is_default(),
    {
        let ghost pre = *self;
        let mut slot: HandlerOption<M> = HandlerOption::Absent;
        core::mem::swap(&mut slot, &mut self.mouse_handler);
        match slot {
            HandlerOption::Fn(mut h) => {
                let out = h.handle(state, button);
                self.mouse_handler = HandlerOption::Fn(h);
                assert(self@ =~= pre@);
                out
            },
            HandlerOption::Sub(j) => {
                self.mouse_handler = HandlerOption::Sub(j);
                if j < self.sub_elements.len() {
                    let sub = &mut self.sub_elements[j];
                    let mut sslot: HandlerOption<M> = HandlerOption::Absent;
                    core::mem::swap(&mut sslot, &mut sub.mouse_handler);
                    let out = match sslot {
                        HandlerOption::Fn(mut h) => {
                            let o = h.handle(state, button);
                            sub.mouse_handler = HandlerOption::Fn(h);
                            o
                        },
                        other => {
                            sub.mouse_handler = other;
                            (UiRequest::NoOp, R::default_value())
                        },
                    };
                    proof {
                        assert(self.sub_elements@[j as int].leaf_view() =~= pre.sub_elements@[
                            j as int].leaf_view());
                        assert(self@.subs =~= pre@.subs);
                        assert(self@ =~= pre@);
                        if pre.wf() {
                            assert forall|i: int| 0 <= i < self.sub_elements@.len() implies (
                            #[trigger] self.sub_elements@[i]).leaf_wf() by {
                                assert(pre.sub_elements@[i].leaf_wf());
                                if i == j {
                                    assert(self.sub_elements@[i].leaf_wf());
                                }
                            }
                        }
                    }
                    out
                } else {
                    assert(self@ =~= pre@);
                    (UiRequest::NoOp, R::default_value())
                }
            },
            HandlerOption::Absent => {
                assert(self@ =~= pre@);
                (UiRequest::NoOp, R::default_value())
            },
        }
    }

    /// Route a key transition to the element's keyboard handler, handing
    /// it mutable access to the text buffer it is responsible for: the
    /// element's own text, or the delegated sub-element's. Everything but
    /// that text is unchanged.
    pub fn handle_keyboard_input<R: EventRemainder>(
        &mut self,
        key_state: ElementState,
        vk_code: Option<VirtualKeyCode>,
        kb_state: &KeyboardState,
    ) -> (r: (UiRequest, R)) where K: KeyboardEventHandler<R>
        ensures
            final(self)@.text_edit_of(old(self)@),
            old(self).wf() ==> final(self).wf(),
            !old(self)@.keyboard_handler_some ==> r.0 == UiRequest::NoOp && r.1.is_default()
                && final(self)@ == old(self)@,
    {
        let ghost pre = *self;
        let mut slot: HandlerOption<K> = HandlerOption::Absent;
        core::mem::swap(&mut slot, &mut self.keyboard_handler);
        match slot {
            HandlerOption::Fn(mut h) => {
                let out = h.handle(key_state, vk_code, kb_state, &mut self.text);
                self.keyboard_handler = HandlerOption::Fn(h);
                assert(self@ =~= ElementView { text: self@.text, ..pre@ });
                assert(self@.text_edit_of(pre@));
                out
            },
            HandlerOption::Sub(j) => {
                self.keyboard_handler = HandlerOption::Sub(j);
                if j < self.sub_elements.len() {
                    let sub = &mut self.sub_elements[j];
                    let mut sslot: HandlerOption<K> = HandlerOption::Absent;
                    core::mem::swap(&mut sslot, &mut sub.keyboard_handler);
                    let out = match sslot {
                        HandlerOption::Fn(mut h) => {
                            let o = h.handle(key_state, vk_code, kb_state, &mut sub.text);
                            sub.keyboard_handler = HandlerOption::Fn(h);
                            o
                        },
                        other => {
                            sub.keyboard_handler = other;
                            (UiRequest::NoOp, R::default_value())
                        },
                    };
                    proof {
                        assert(self.sub_elements@[j as int].leaf_view() =~= SubElementView {
                            text: self.sub_elements@[j as int].leaf_view().text,
                            ..pre.sub_elements@[j as int].leaf_view()
                        });
                        assert(self@.subs.len() == pre@.subs.len());
                        assert forall|i: int| 0 <= i < self@.subs.len() implies #[trigger] self@
                            .subs[i] == (SubElementView { text: self@.subs[i].text, ..pre@.subs[i] }) by {
                            if i != j {
                                assert(self.sub_elements@[i] == pre.sub_elements@[i]);
                                assert(self@.subs[i] =~= SubElementView {
                                    text: self@.subs[i].text,
                                    ..pre@.subs[i]
                                });
                            }
                        }
                        assert(self@ =~= ElementView { text: self@.text, subs: self@.subs, ..pre@ });
                        assert(self@.text_edit_of(pre@));
                        if pre.wf() {
                            assert forall|i: int| 0 <= i < self.sub_elements@.len() implies (
                            #[trigger] self.sub_elements@[i]).leaf_wf() by {
                                assert(pre.sub_elements@[i].leaf_wf());
                                if i == j {
                                    assert(self.sub_elements@[i].leaf_wf());
                                }
                            }
                        }
                    }
                    out
                } else {
                    assert(self@ =~= pre@);
                    assert(self@.text_edit_of(pre@));
                    (UiRequest::NoOp, R::default_value())
                }
            },
            HandlerOption::Absent => {
                assert(self@ =~= pre@);
                assert(self@.text_edit_of(pre@));
                (UiRequest::NoOp, R::default_value())
            },
        }
    }
}

} // verus!

verus! {

impl<M, K> Element<M, K> {
    /// A leaf's spec-level image carries the same fields as its full
    /// view; this lets callers reason about a sub-element they built
    /// before nesting it.
    pub proof fn lemma_leaf_view(e: &Element<M, K>)
        ensures
            e.leaf_view() == (SubElementView {
                kind: e@.kind,
                region: e@.region,
                anchor: e@.anchor,
                offset: e@.offset,
                shape_vertices: e@.shape_vertices,
                shape_indices: e@.shape_indices,
                border: e@.border,
                text: e@.text,
                text_offset: e@.text_offset,
                mouse_focus: e@.mouse_focus,
                keybd_focus: e@.keybd_focus,
                mouse_handler_some: e@.mouse_handler_some,
                keyboard_handler_some: e@.keyboard_handler_some,
            }),
    {
    }
}

} // verus!
