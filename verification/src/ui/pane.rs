//! The event-dispatch engine: one raw event in, one remainder out.
//!
//! The pane owns a flat ordered list of elements, the pointer and modifier
//! state, and the two focus indices (mouse, keyboard). Every public entry
//! point preserves the focus invariant: at most one element holds mouse
//! focus and at most one holds keyboard focus, and the indices always
//! agree with the elements' visual flags.

use vstd::prelude::*;

use crate::ui::element::{Element, ElementView};
use crate::ui::enums::UiRequest;
use crate::ui::events::{ElementState, Event, MouseButton, VirtualKeyCode};
use crate::ui::keyboard_state::{modifiers_updated, KeyboardState};
use crate::ui::mouse_state::{norm_point_of, MouseState, NormPoint};
use crate::ui::traits::{EventRemainder, GeometrySink, KeyboardEventHandler, MouseEventHandler};
use crate::ui::vertex::Vertex;

verus! {

/// The UI scale a new pane starts with, in permille.
pub const DEFAULT_UI_SCALE_PERMILLE: u32 = 900;

/// The concatenated emitted vertices of a run of elements, in registration
/// order, each element's sub-elements inline after their parent.
pub open spec fn all_vertices<M, K>(
    elements: Seq<Element<M, K>>,
    dims: (u32, u32),
    scale: u32,
) -> Seq<Vertex>
    decreases elements.len(),
{
    if elements.len() == 0 {
        Seq::empty()
    } else {
        all_vertices(elements.drop_last(), dims, scale) + elements.last().spec_vertices(
            dims,
            scale,
        )
    }
}

/// The summed vertex counts of a run of elements.
pub open spec fn total_vertex_count<M, K>(elements: Seq<Element<M, K>>) -> nat
    decreases elements.len(),
{
    if elements.len() == 0 {
        0
    } else {
        total_vertex_count(elements.drop_last()) + elements.last().spec_vertex_count()
    }
}

/// The concatenated index lists of a run of elements, each rebased past
/// all vertices emitted before it.
pub open spec fn all_indices<M, K>(elements: Seq<Element<M, K>>, base: int) -> Seq<u16>
    decreases elements.len(),
{
    if elements.len() == 0 {
        Seq::empty()
    } else {
        all_indices(elements.drop_last(), base) + elements.last().spec_indices(
            base + total_vertex_count(elements.drop_last()),
        )
    }
}

/// The mouse-focus flags agree with the focus index: the holder's flag is
/// set, everyone else's is clear.
pub open spec fn mouse_focus_coherent(views: Seq<ElementView>, focused: Option<usize>) -> bool {
    match focused {
        Some(i) => i < views.len() && views[i as int].mouse_focus && forall|j: int|
            0 <= j < views.len() && j != i ==> !(#[trigger] views[j]).mouse_focus,
        None => forall|j: int| 0 <= j < views.len() ==> !(#[trigger] views[j]).mouse_focus,
    }
}

/// The keyboard-focus flags agree with the focus index.
pub open spec fn keybd_focus_coherent(views: Seq<ElementView>, focused: Option<usize>) -> bool {
    match focused {
        Some(i) => i < views.len() && views[i as int].keybd_focus && forall|j: int|
            0 <= j < views.len() && j != i ==> !(#[trigger] views[j]).keybd_focus,
        None => forall|j: int| 0 <= j < views.len() ==> !(#[trigger] views[j]).keybd_focus,
    }
}

/// The element list with the mouse-focus flags rewritten so that exactly
/// the given element (if any) holds them.
pub open spec fn with_mouse_focus(views: Seq<ElementView>, f: Option<usize>) -> Seq<ElementView> {
    Seq::new(
        views.len(),
        |i: int| ElementView { mouse_focus: f matches Some(k) && k == i, ..views[i] },
    )
}

/// The element list with the keyboard-focus flags rewritten so that
/// exactly the given element (if any) holds them.
pub open spec fn with_keybd_focus(views: Seq<ElementView>, f: Option<usize>) -> Seq<ElementView> {
    Seq::new(
        views.len(),
        |i: int| ElementView { keybd_focus: f matches Some(k) && k == i, ..views[i] },
    )
}

/// The first element at or after position `k` whose hit region contains
/// the point.
pub open spec fn first_hit_from(views: Seq<ElementView>, p: NormPoint, k: int) -> Option<usize>
    decreases views.len() - k,
{
    if k < 0 || k >= views.len() {
        None
    } else if views[k].region.spec_contains(p) {
        Some(k as usize)
    } else {
        first_hit_from(views, p, k + 1)
    }
}

/// The first element, in registration order, whose hit region contains
/// the point: first match wins, with no z-ordering beyond list order.
pub open spec fn first_hit(views: Seq<ElementView>, p: NormPoint) -> Option<usize> {
    first_hit_from(views, p, 0)
}

/// What `first_hit` returns: the match contains the point and nothing
/// before it does; a miss means nothing contains it.
pub open spec fn first_hit_is(views: Seq<ElementView>, p: NormPoint, r: Option<usize>) -> bool {
    match r {
        Some(i) => i < views.len() && views[i as int].region.spec_contains(p) && forall|j: int|
            0 <= j < i ==> !(#[trigger] views[j]).region.spec_contains(p),
        None => forall|j: int| 0 <= j < views.len() ==> !(#[trigger] views[j]).region.spec_contains(p),
    }
}

/// `first_hit` satisfies `first_hit_is`.
pub proof fn lemma_first_hit_sound(views: Seq<ElementView>, p: NormPoint)
    requires
        views.len() <= usize::MAX,
    ensures
        first_hit_is(views, p, first_hit(views, p)),
{
    lemma_first_hit_from_sound(views, p, 0);
}

proof fn lemma_first_hit_from_sound(views: Seq<ElementView>, p: NormPoint, k: int)
    requires
        0 <= k <= views.len(),
        views.len() <= usize::MAX,
    ensures
        match first_hit_from(views, p, k) {
            Some(i) => k <= i < views.len() && views[i as int].region.spec_contains(p) && forall|
                j: int,
            | k <= j < i ==> !(#[trigger] views[j]).region.spec_contains(p),
            None => forall|j: int| k <= j < views.len() ==> !(#[trigger] views[j]).region.spec_contains(p),
        },
    decreases views.len() - k,
{
    if k == views.len() {
        assert(first_hit_from(views, p, k) is None);
    } else if views[k].region.spec_contains(p) {
        assert(first_hit_from(views, p, k) == Some(k as usize));
    } else {
        lemma_first_hit_from_sound(views, p, k + 1);
        assert(first_hit_from(views, p, k) == first_hit_from(views, p, k + 1));
        match first_hit_from(views, p, k) {
            Some(i) => {
                assert forall|j: int| k <= j < i implies !(#[trigger] views[j]).region.spec_contains(
                    p,
                ) by {
                    if j != k {
                        assert(k + 1 <= j < i);
                    }
                }
            },
            None => {
                assert forall|j: int| k <= j < views.len() implies !(
                #[trigger] views[j]).region.spec_contains(p) by {
                    if j != k {
                        assert(k + 1 <= j < views.len());
                    }
                }
            },
        }
    }
}

/// Where the focus lands after one resolution pass: unchanged while a
/// button is held or the position history is stale, otherwise the first
/// hit under the current pointer.
pub open spec fn resolved_mouse_focus(
    views: Seq<ElementView>,
    ms: MouseState,
    dims: (u32, u32),
    f0: Option<usize>,
) -> Option<usize> {
    if ms.spec_any_pressed() || ms.spec_stale() {
        f0
    } else {
        first_hit(views, norm_point_of(ms.spec_position(), dims))
    }
}

/// Clamp surface dimensions away from zero so normalized coordinates stay
/// defined.
pub open spec fn dims_clamped(dims: (u32, u32)) -> (u32, u32) {
    (if dims.0 == 0 { 1u32 } else { dims.0 }, if dims.1 == 0 { 1u32 } else { dims.1 })
}

/// The event-dispatch engine. `M` and `K` are the caller's mouse and
/// keyboard handler types, `S` its geometry sink.
pub struct Pane<M, K, S> {
    initialized: bool,
    elements: Vec<Element<M, K>>,
    scale: u32,
    sink: S,
    mouse_state: MouseState,
    keybd_state: KeyboardState,
    mouse_focused: Option<usize>,
    keybd_focused: Option<usize>,
    surface_dims: (u32, u32),
    refresh_count: Ghost<nat>,
    last_vertices: Ghost<Seq<Vertex>>,
    last_indices: Ghost<Seq<u16>>,
}

impl<M, K, S> Pane<M, K, S> {
    /// Whether the one-time buffer initialization has run.
    pub closed spec fn spec_initialized(self) -> bool {
        self.initialized
    }

    /// The elements, as spec-level views, in registration order.
    pub closed spec fn spec_elements(self) -> Seq<ElementView> {
        self.elements@.map(|i: int, e: Element<M, K>| e@)
    }

    /// The elements themselves, for geometry specs.
    pub closed spec fn spec_element_list(self) -> Seq<Element<M, K>> {
        self.elements@
    }

    /// The pointer state.
    pub closed spec fn spec_mouse(self) -> MouseState {
        self.mouse_state
    }

    /// The modifier state.
    pub closed spec fn spec_keybd(self) -> KeyboardState {
        self.keybd_state
    }

    /// Which element currently holds mouse focus.
    pub closed spec fn spec_mouse_focused(self) -> Option<usize> {
        self.mouse_focused
    }

    /// Which element currently holds keyboard focus.
    pub closed spec fn spec_keybd_focused(self) -> Option<usize> {
        self.keybd_focused
    }

    /// The surface dimensions geometry is derived against.
    pub closed spec fn spec_dims(self) -> (u32, u32) {
        self.surface_dims
    }

    /// The fixed UI scale, in permille.
    pub closed spec fn spec_scale(self) -> u32 {
        self.scale
    }

    /// How many geometry refreshes have been pushed to the sink.
    pub closed spec fn spec_refresh_count(self) -> nat {
        self.refresh_count@
    }

    /// The vertex list most recently handed to the sink.
    pub closed spec fn spec_last_vertices(self) -> Seq<Vertex> {
        self.last_vertices@
    }

    /// The index list handed to the sink at initialization.
    pub closed spec fn spec_last_indices(self) -> Seq<u16> {
        self.last_indices@
    }

    /// The pane invariant: positive dimensions, a bounded scale, a bounded
    /// and well-formed element list, and both focus domains coherent.
    pub closed spec fn wf(self) -> bool {
        &&& self.surface_dims.0 >= 1
        &&& self.surface_dims.1 >= 1
        &&& self.scale <= crate::ui::element::SCALE_LIMIT_PERMILLE
        &&& self.elements@.len() <= 0xFFFF
        &&& forall|i: int| 0 <= i < self.elements@.len() ==> (#[trigger] self.elements@[i]).wf()
        &&& mouse_focus_coherent(self.spec_elements(), self.mouse_focused)
        &&& keybd_focus_coherent(self.spec_elements(), self.keybd_focused)
    }

    /// An empty pane drawing to the given sink at the given surface size.
    pub fn new(surface_dims: (u32, u32), sink: S) -> (r: Pane<M, K, S>)
        ensures
            r.wf(),
            !r.spec_initialized(),
            r.spec_elements().len() == 0,
            r.spec_mouse_focused() is None,
            r.spec_keybd_focused() is None,
            r.spec_dims() == dims_clamped(surface_dims),
            r.spec_scale() == DEFAULT_UI_SCALE_PERMILLE,
            r.spec_refresh_count() == 0,
            !r.spec_mouse().spec_stale(),
            r.spec_mouse().spec_position() == (0i32, 0i32),
            forall|b: MouseButton| #[trigger] r.spec_mouse().spec_button(b) is Released,
            r.spec_keybd() == (KeyboardState { shift: false, control: false, alt: false }),
    {
        let w = if surface_dims.0 == 0 {
            1
        } else {
            surface_dims.0
        };
        let h = if surface_dims.1 == 0 {
            1
        } else {
            surface_dims.1
        };
        let r = Pane {
            initialized: false,
            elements: Vec::new(),
            scale: DEFAULT_UI_SCALE_PERMILLE,
            sink,
            mouse_state: MouseState::new(),
            keybd_state: KeyboardState::new(),
            mouse_focused: None,
            keybd_focused: None,
            surface_dims: (w, h),
            refresh_count: Ghost(0),
            last_vertices: Ghost(Seq::empty()),
            last_indices: Ghost(Seq::empty()),
        };
        proof {
            assert(r.spec_elements() =~= Seq::<ElementView>::empty());
        }
        r
    }

    /// Register one more element. Elements can only be added before the
    /// one-time initialization; the caller hands over an unfocused,
    /// well-formed element.
    pub fn element(self, element: Element<M, K>) -> (r: Pane<M, K, S>)
        requires
            self.wf(),
            !self.spec_initialized(),
            self.spec_elements().len() < 0xFFFF,
            element.wf(),
            !element@.mouse_focus,
            !element@.keybd_focus,
        ensures
            r.wf(),
            !r.spec_initialized(),
            r.spec_elements() == self.spec_elements().push(element@),
            r.spec_element_list() == self.spec_element_list().push(element),
            r.spec_mouse() == self.spec_mouse(),
            r.spec_keybd() == self.spec_keybd(),
            r.spec_mouse_focused() == self.spec_mouse_focused(),
            r.spec_keybd_focused() == self.spec_keybd_focused(),
            r.spec_dims() == self.spec_dims(),
            r.spec_scale() == self.spec_scale(),
            r.spec_refresh_count() == self.spec_refresh_count(),
    {
        let ghost pre = self;
        let mut r = self;
        r.elements.push(element);
        proof {
            assert(r.spec_elements() =~= pre.spec_elements().push(element@));
            assert(mouse_focus_coherent(r.spec_elements(), r.mouse_focused)) by {
                assert(r.spec_elements()[r.spec_elements().len() - 1] == element@);
                match pre.mouse_focused {
                    Option::Some(i) => {
                        assert(r.spec_elements()[i as int].mouse_focus);
                    },
                    Option::None => {},
                }
            }
            assert(keybd_focus_coherent(r.spec_elements(), r.keybd_focused)) by {
                match pre.keybd_focused {
                    Option::Some(i) => {
                        assert(r.spec_elements()[i as int].keybd_focus);
                    },
                    Option::None => {},
                }
            }
        }
        r
    }

    /// Whether the registered geometry fits the 16-bit index space the
    /// buffers use.
    pub fn geometry_fits(&self) -> (r: bool)
        requires
            self.wf(),
        ensures
            r == (total_vertex_count(self.spec_element_list()) <= 0xFFFF),
    {
        let mut count: u64 = 0;
        let n = self.elements.len();
        proof {
            assert(self.elements@.subrange(0, 0) =~= Seq::<Element<M, K>>::empty());
        }
        for j in 0..n
            invariant
                n == self.elements@.len(),
                self.wf(),
                count == total_vertex_count(self.elements@.subrange(0, j as int)),
                count <= 0xFFFF,
        {
            proof {
                assert(self.elements@[j as int].wf());
                assert(self.elements@.subrange(0, j + 1).drop_last() =~= self.elements@.subrange(
                    0, j as int));
                assert(self.elements@.subrange(0, j + 1).last() == self.elements@[j as int]);
            }
            let c = self.elements[j].vertex_count();
            let next: u64 = count + (c as u64);
            if next > 0xFFFF {
                proof {
                    lemma_total_vertex_count_prefix_le(self.elements@, j + 1);
                }
                return false;
            }
            count = next;
        }
        proof {
            assert(self.elements@.subrange(0, n as int) =~= self.elements@);
        }
        true
    }
}

/// A prefix never counts more vertices than the whole run.
proof fn lemma_total_vertex_count_prefix_le<M, K>(elements: Seq<Element<M, K>>, j: int)
    requires
        0 <= j <= elements.len(),
    ensures
        total_vertex_count(elements.subrange(0, j)) <= total_vertex_count(elements),
    decreases elements.len() - j,
{
    if j == elements.len() {
        assert(elements.subrange(0, j) =~= elements);
    } else {
        lemma_total_vertex_count_prefix_le(elements, j + 1);
        assert(elements.subrange(0, j + 1).drop_last() =~= elements.subrange(0, j));
        assert(total_vertex_count(elements.subrange(0, j + 1)) == total_vertex_count(
            elements.subrange(0, j),
        ) + elements.subrange(0, j + 1).last().spec_vertex_count());
    }
}

} // verus!

verus! {

/// Exec equality on optional indices.
fn opt_eq(a: Option<usize>, b: Option<usize>) -> (r: bool)
    ensures
        r == (a == b),
{
    match (a, b) {
        (Option::None, Option::None) => true,
        (Option::Some(x), Option::Some(y)) => x == y,
        _ => false,
    }
}

impl<M, K, S> Pane<M, K, S> {
    /// One focus-resolution pass at the given dimensions: a no-op while a
    /// button is held or the history is stale; otherwise the first hit
    /// under the pointer takes the focus, and if that changed anything
    /// the flags are rewritten and the geometry refreshed once.
    pub open spec fn focus_pass(pre: Self, post: Self, dims: (u32, u32)) -> bool {
        let mf = resolved_mouse_focus(
            pre.spec_elements(),
            pre.spec_mouse(),
            dims,
            pre.spec_mouse_focused(),
        );
        &&& post.spec_mouse_focused() == mf
        &&& post.spec_elements() == (if mf == pre.spec_mouse_focused() {
            pre.spec_elements()
        } else {
            with_mouse_focus(pre.spec_elements(), mf)
        })
        &&& post.spec_refresh_count() == pre.spec_refresh_count() + (
        if mf == pre.spec_mouse_focused() {
            0int
        } else {
            1int
        })
        &&& (mf != pre.spec_mouse_focused() ==> post.spec_last_vertices() == all_vertices(
            post.spec_element_list(),
            dims,
            post.spec_scale(),
        ))
        &&& (mf == pre.spec_mouse_focused() ==> post.spec_last_vertices()
            == pre.spec_last_vertices() && post.spec_element_list() == pre.spec_element_list())
        &&& post.spec_mouse() == pre.spec_mouse()
        &&& post.spec_keybd() == pre.spec_keybd()
        &&& post.spec_keybd_focused() == pre.spec_keybd_focused()
        &&& post.spec_dims() == dims
        &&& post.spec_scale() == pre.spec_scale()
        &&& post.spec_initialized() == pre.spec_initialized()
        &&& post.spec_last_indices() == pre.spec_last_indices()
    }

    /// The index of the first element, in registration order, whose hit
    /// region contains the point.
    #[verifier::loop_isolation(false)]
    fn focused_element_idx(&self, p: &NormPoint) -> (r: Option<usize>)
        requires
            self.wf(),
            p.wf(),
        ensures
            r == first_hit(self.spec_elements(), *p),
    {
        let n = self.elements.len();
        for idx in 0..n
            invariant
                first_hit(self.spec_elements(), *p) == first_hit_from(
                    self.spec_elements(),
                    *p,
                    idx as int,
                ),
        {
            if self.elements[idx].has_mouse_focus(p) {
                return Some(idx);
            }
        }
        None
    }

    /// The pointer state.
    pub fn mouse_state(&self) -> (r: &MouseState)
        ensures
            *r == self.spec_mouse(),
    {
        &self.mouse_state
    }

    /// Mark the pointer history stale so the next focus resolution skips
    /// its hit-test.
    pub fn set_input_stale(&mut self)
        ensures
            final(self).spec_mouse().spec_stale(),
            final(self).spec_mouse().spec_position() == old(self).spec_mouse().spec_position(),
            final(self).spec_mouse().buttons_agree(old(self).spec_mouse()),
            final(self).spec_elements() == old(self).spec_elements(),
            final(self).spec_element_list() == old(self).spec_element_list(),
            final(self).spec_keybd() == old(self).spec_keybd(),
            final(self).spec_mouse_focused() == old(self).spec_mouse_focused(),
            final(self).spec_keybd_focused() == old(self).spec_keybd_focused(),
            final(self).spec_dims() == old(self).spec_dims(),
            final(self).spec_scale() == old(self).spec_scale(),
            final(self).spec_initialized() == old(self).spec_initialized(),
            final(self).spec_refresh_count() == old(self).spec_refresh_count(),
            final(self).wf() == old(self).wf(),
    {
        self.mouse_state.set_stale();
    }

    /// Whether the pointer history is marked stale.
    pub fn input_is_stale(&self) -> (r: bool)
        ensures
            r == self.spec_mouse().spec_stale(),
    {
        self.mouse_state.is_stale()
    }

    /// Whether the one-time buffer initialization has run.
    pub fn is_initialized(&self) -> (r: bool)
        ensures
            r == self.spec_initialized(),
    {
        self.initialized
    }

    /// Which element currently holds mouse focus.
    pub fn mouse_focus_index(&self) -> (r: Option<usize>)
        ensures
            r == self.spec_mouse_focused(),
    {
        self.mouse_focused
    }

    /// Which element currently holds keyboard focus.
    pub fn keybd_focus_index(&self) -> (r: Option<usize>)
        ensures
            r == self.spec_keybd_focused(),
    {
        self.keybd_focused
    }

    /// Rebuild the complete vertex list: every element's emitted vertices
    /// in registration order.
    #[verifier::loop_isolation(false)]
    fn collect_vertices(&self) -> (r: Vec<Vertex>)
        requires
            self.wf(),
        ensures
            r@ == all_vertices(self.spec_element_list(), self.spec_dims(), self.spec_scale()),
    {
        let mut out: Vec<Vertex> = Vec::new();
        let n = self.elements.len();
        proof {
            assert(self.elements@.subrange(0, 0) =~= Seq::<Element<M, K>>::empty());
            assert(out@ =~= all_vertices(self.elements@.subrange(0, 0), self.surface_dims,
                self.scale));
        }
        for j in 0..n
            invariant
                out@ == all_vertices(self.elements@.subrange(0, j as int), self.surface_dims,
                    self.scale),
        {
            proof {
                assert(self.elements@[j as int].wf());
            }
            let mut vs = self.elements[j].vertices(self.surface_dims, self.scale);
            out.append(&mut vs);
            proof {
                assert(self.elements@.subrange(0, j + 1).drop_last() =~= self.elements@.subrange(
                    0, j as int));
                assert(self.elements@.subrange(0, j + 1).last() == self.elements@[j as int]);
                assert(out@ =~= all_vertices(self.elements@.subrange(0, j + 1),
                    self.surface_dims, self.scale));
            }
        }
        proof {
            assert(self.elements@.subrange(0, n as int) =~= self.elements@);
        }
        out
    }
}

impl<M, K, S: GeometrySink> Pane<M, K, S> {
    /// Recompute every element's vertices and replace the sink's vertex
    /// buffer wholesale. Partial updates are deliberately not offered.
    pub fn refresh_vertices(&mut self)
        requires
            old(self).wf(),
            old(self).spec_initialized(),
        ensures
            final(self).wf(),
            final(self).spec_elements() == old(self).spec_elements(),
            final(self).spec_element_list() == old(self).spec_element_list(),
            final(self).spec_mouse() == old(self).spec_mouse(),
            final(self).spec_keybd() == old(self).spec_keybd(),
            final(self).spec_mouse_focused() == old(self).spec_mouse_focused(),
            final(self).spec_keybd_focused() == old(self).spec_keybd_focused(),
            final(self).spec_dims() == old(self).spec_dims(),
            final(self).spec_scale() == old(self).spec_scale(),
            final(self).spec_initialized(),
            final(self).spec_refresh_count() == old(self).spec_refresh_count() + 1,
            final(self).spec_last_vertices() == all_vertices(
                final(self).spec_element_list(),
                final(self).spec_dims(),
                final(self).spec_scale(),
            ),
            final(self).spec_last_indices() == old(self).spec_last_indices(),
    {
        let vertices = self.collect_vertices();
        self.sink.write_vertices(&vertices);
        self.last_vertices = Ghost(vertices@);
        self.refresh_count = Ghost(self.refresh_count@ + 1);
    }

    /// The one-time initialization: assemble the full vertex and index
    /// lists and hand them to the sink. The registered geometry must fit
    /// the 16-bit index space (`geometry_fits`).
    #[verifier::loop_isolation(false)]
    pub fn init(self) -> (r: Pane<M, K, S>)
        requires
            self.wf(),
            total_vertex_count(self.spec_element_list()) <= 0xFFFF,
        ensures
            r.wf(),
            r.spec_initialized(),
            r.spec_elements() == self.spec_elements(),
            r.spec_element_list() == self.spec_element_list(),
            r.spec_mouse() == self.spec_mouse(),
            r.spec_keybd() == self.spec_keybd(),
            r.spec_mouse_focused() == self.spec_mouse_focused(),
            r.spec_keybd_focused() == self.spec_keybd_focused(),
            r.spec_dims() == self.spec_dims(),
            r.spec_scale() == self.spec_scale(),
            r.spec_refresh_count() == self.spec_refresh_count(),
            r.spec_last_vertices() == all_vertices(
                self.spec_element_list(),
                self.spec_dims(),
                self.spec_scale(),
            ),
            r.spec_last_indices() == all_indices(self.spec_element_list(), 0),
    {
        let vertices = self.collect_vertices();
        let mut indices: Vec<u16> = Vec::new();
        let mut base: usize = 0;
        let n = self.elements.len();
        proof {
            assert(self.elements@.subrange(0, 0) =~= Seq::<Element<M, K>>::empty());
            assert(indices@ =~= all_indices(self.elements@.subrange(0, 0), 0));
        }
        for j in 0..n
            invariant
                base == total_vertex_count(self.elements@.subrange(0, j as int)),
                base <= 0xFFFF,
                indices@ == all_indices(self.elements@.subrange(0, j as int), 0),
        {
            proof {
                assert(self.elements@[j as int].wf());
                assert(self.elements@.subrange(0, j + 1).drop_last() =~= self.elements@.subrange(
                    0, j as int));
                assert(self.elements@.subrange(0, j + 1).last() == self.elements@[j as int]);
                lemma_total_vertex_count_prefix_le(self.elements@, j + 1);
            }
            let mut ix = self.elements[j].indices(base as u16);
            indices.append(&mut ix);
            let c = self.elements[j].vertex_count();
            base = base + c;
            proof {
                assert(indices@ =~= all_indices(self.elements@.subrange(0, j + 1), 0));
            }
        }
        proof {
            assert(self.elements@.subrange(0, n as int) =~= self.elements@);
        }
        let mut r = self;
        r.sink.init_buffers(&vertices, &indices);
        r.initialized = true;
        r.last_vertices = Ghost(vertices@);
        r.last_indices = Ghost(indices@);
        r
    }

    /// Re-run mouse-focus resolution: a no-op while any button is held
    /// (focus must not slide mid-drag) or while the history is stale (the
    /// previous answer is still valid). A focus change rewrites the
    /// flags, records the new index, and refreshes the geometry once.
    pub fn update_mouse_focus(&mut self)
        requires
            old(self).wf(),
            old(self).spec_initialized(),
        ensures
            final(self).wf(),
            final(self).spec_initialized(),
            Self::focus_pass(*old(self), *final(self), old(self).spec_dims()),
    {
        let ghost pre = *self;
        if self.mouse_state.any_pressed() {
            return ;
        }
        if !self.mouse_state.is_stale() {
            let p = self.mouse_state.surface_position(self.surface_dims);
            let newly = self.focused_element_idx(&p);
            if !opt_eq(newly, self.mouse_focused) {
                let ghost views0 = self.spec_elements();
                proof {
                    lemma_first_hit_sound(views0, p);
                }
                match self.mouse_focused {
                    Some(idx) => {
                        self.elements[idx].set_mouse_focus(false);
                        proof {
                            assert(self.spec_elements() =~= views0.update(
                                idx as int,
                                ElementView { mouse_focus: false, ..views0[idx as int] },
                            ));
                        }
                    },
                    None => {},
                }
                let ghost views1 = self.spec_elements();
                match newly {
                    Some(idx) => {
                        self.elements[idx].set_mouse_focus(true);
                        proof {
                            assert(self.spec_elements() =~= views1.update(
                                idx as int,
                                ElementView { mouse_focus: true, ..views1[idx as int] },
                            ));
                        }
                    },
                    None => {},
                }
                self.mouse_focused = newly;
                proof {
                    assert(self.spec_elements() =~= with_mouse_focus(views0, newly)) by {
                        assert forall|nn: int| 0 <= nn < views0.len() implies self.spec_elements()[
                            nn] == (ElementView {
                            mouse_focus: newly matches Some(k) && k == nn,
                            ..views0[nn]
                        }) by {
                            if pre.spec_mouse_focused() matches Some(oi) && nn == oi {
                                assert(self.spec_elements()[nn].mouse_focus == false);
                            }
                        }
                    }
                    assert(mouse_focus_coherent(self.spec_elements(), self.mouse_focused));
                    assert(keybd_focus_coherent(self.spec_elements(), self.keybd_focused)) by {
                        match pre.spec_keybd_focused() {
                            Option::Some(ki) => {
                                assert(self.spec_elements()[ki as int].keybd_focus == views0[
                                    ki as int].keybd_focus);
                            },
                            Option::None => {},
                        }
                    }
                    assert(forall|i: int|
                        0 <= i < self.elements@.len() ==> (#[trigger] self.elements@[i]).wf());
                }
                self.refresh_vertices();
            }
        }
    }
}

} // verus!

verus! {

impl<M, K, S> Pane<M, K, S> {
    /// Nothing observable changed.
    pub open spec fn unchanged(pre: Self, post: Self) -> bool {
        &&& post.spec_elements() == pre.spec_elements()
        &&& post.spec_element_list() == pre.spec_element_list()
        &&& post.spec_mouse() == pre.spec_mouse()
        &&& post.spec_keybd() == pre.spec_keybd()
        &&& post.spec_mouse_focused() == pre.spec_mouse_focused()
        &&& post.spec_keybd_focused() == pre.spec_keybd_focused()
        &&& post.spec_dims() == pre.spec_dims()
        &&& post.spec_scale() == pre.spec_scale()
        &&& post.spec_initialized() == pre.spec_initialized()
        &&& post.spec_refresh_count() == pre.spec_refresh_count()
        &&& post.spec_last_vertices() == pre.spec_last_vertices()
        &&& post.spec_last_indices() == pre.spec_last_indices()
    }

    /// A resize: the new dimensions are recorded (clamped away from zero)
    /// and the whole geometry is regenerated against them, exactly once.
    pub open spec fn resize_transition(pre: Self, post: Self, w: u32, h: u32) -> bool {
        &&& post.spec_dims() == dims_clamped((w, h))
        &&& post.spec_elements() == pre.spec_elements()
        &&& post.spec_element_list() == pre.spec_element_list()
        &&& post.spec_mouse() == pre.spec_mouse()
        &&& post.spec_keybd() == pre.spec_keybd()
        &&& post.spec_mouse_focused() == pre.spec_mouse_focused()
        &&& post.spec_keybd_focused() == pre.spec_keybd_focused()
        &&& post.spec_scale() == pre.spec_scale()
        &&& post.spec_initialized() == pre.spec_initialized()
        &&& post.spec_refresh_count() == pre.spec_refresh_count() + 1
        &&& post.spec_last_vertices() == all_vertices(
            post.spec_element_list(),
            post.spec_dims(),
            post.spec_scale(),
        )
        &&& post.spec_last_indices() == pre.spec_last_indices()
    }

    /// A pointer motion: only the position history steps; focus
    /// resolution is coalesced into the draw cycle, not done here.
    pub open spec fn motion_transition(pre: Self, post: Self, x: i32, y: i32) -> bool {
        &&& post.spec_mouse() == pre.spec_mouse().motion_step((x, y))
        &&& post.spec_elements() == pre.spec_elements()
        &&& post.spec_element_list() == pre.spec_element_list()
        &&& post.spec_keybd() == pre.spec_keybd()
        &&& post.spec_mouse_focused() == pre.spec_mouse_focused()
        &&& post.spec_keybd_focused() == pre.spec_keybd_focused()
        &&& post.spec_dims() == pre.spec_dims()
        &&& post.spec_scale() == pre.spec_scale()
        &&& post.spec_initialized() == pre.spec_initialized()
        &&& post.spec_refresh_count() == pre.spec_refresh_count()
        &&& post.spec_last_vertices() == pre.spec_last_vertices()
        &&& post.spec_last_indices() == pre.spec_last_indices()
    }

    /// A key transition: the modifier flags are folded in first, so the
    /// same event's modifier effect is visible to the hotkey check. With
    /// control held, only the quit hotkey fires (its remainder is the
    /// dedicated "closed" value) and no element ever sees the event.
    /// Without control, the event goes to the keyboard-focused element's
    /// handler, which may edit its text; the handler's instruction is
    /// deliberately ignored for keyboard input, so focus and geometry
    /// stay as they were. With no keyboard focus the event passes
    /// through.
    pub open spec fn keyboard_transition<R: EventRemainder>(
        pre: Self,
        post: Self,
        key_state: ElementState,
        vk_code: Option<VirtualKeyCode>,
        event: Event,
        r: R,
    ) -> bool {
        let kb = modifiers_updated(pre.spec_keybd(), key_state, vk_code);
        &&& post.spec_keybd() == kb
        &&& post.spec_mouse() == pre.spec_mouse()
        &&& post.spec_mouse_focused() == pre.spec_mouse_focused()
        &&& post.spec_keybd_focused() == pre.spec_keybd_focused()
        &&& post.spec_dims() == pre.spec_dims()
        &&& post.spec_scale() == pre.spec_scale()
        &&& post.spec_initialized() == pre.spec_initialized()
        &&& post.spec_refresh_count() == pre.spec_refresh_count()
        &&& post.spec_last_vertices() == pre.spec_last_vertices()
        &&& post.spec_last_indices() == pre.spec_last_indices()
        &&& ({
            if kb.control {
            &&& post.spec_elements() == pre.spec_elements()
            &&& post.spec_element_list() == pre.spec_element_list()
            &&& if key_state is Pressed && vk_code == Some(VirtualKeyCode::Q) {
                r.is_closed()
            } else {
                r.is_event(event)
            }
        } else {
            match pre.spec_keybd_focused() {
                Option::None => {
                    &&& post.spec_elements() == pre.spec_elements()
                    &&& post.spec_element_list() == pre.spec_element_list()
                    &&& r.is_event(event)
                },
                Option::Some(i) => {
                    &&& post.spec_elements().len() == pre.spec_elements().len()
                    &&& post.spec_elements()[i as int].text_edit_of(
                        pre.spec_elements()[i as int],
                    )
                    &&& forall|j: int|
                        0 <= j < pre.spec_elements().len() && j != i
                            ==> #[trigger] post.spec_elements()[j] == pre.spec_elements()[j]
                    &&& (!pre.spec_elements()[i as int].keyboard_handler_some ==> r.is_default()
                        && post.spec_elements() == pre.spec_elements())
                },
            }
        }
        })
    }

    /// How a handler's instruction changes the keyboard-focus domain, in
    /// the context of the element `i` that was just dispatched to:
    /// claiming moves keyboard focus to `i` (clearing any previous
    /// holder's flag), releasing drops it only if `i` held it, anything
    /// else leaves focus alone.
    pub open spec fn request_applied(
        views: Seq<ElementView>,
        kf0: Option<usize>,
        i: int,
        req: UiRequest,
        views1: Seq<ElementView>,
        kf1: Option<usize>,
    ) -> bool {
        match req {
            UiRequest::KeyboardFocus(claim) => {
                if claim {
                    &&& kf1 == Some(i as usize)
                    &&& views1 == with_keybd_focus(views, Some(i as usize))
                } else if kf0 == Some(i as usize) {
                    &&& kf1 == Option::<usize>::None
                    &&& views1 == with_keybd_focus(views, Option::None)
                } else {
                    &&& kf1 == kf0
                    &&& views1 == views
                }
            },
            _ => {
                &&& kf1 == kf0
                &&& views1 == views
            },
        }
    }

    /// Some instruction of the dispatched element `i` explains the change
    /// from one keyboard-focus state to the next.
    pub open spec fn some_request_applied(
        views: Seq<ElementView>,
        kf0: Option<usize>,
        i: int,
        views1: Seq<ElementView>,
        kf1: Option<usize>,
    ) -> bool {
        exists|req: UiRequest| Self::request_applied(views, kf0, i, req, views1, kf1)
    }

    /// Exhibiting one instruction establishes `some_request_applied`.
    pub proof fn lemma_some_request_applied(
        views: Seq<ElementView>,
        kf0: Option<usize>,
        i: int,
        req: UiRequest,
        views1: Seq<ElementView>,
        kf1: Option<usize>,
    )
        requires
            Self::request_applied(views, kf0, i, req, views1, kf1),
        ensures
            Self::some_request_applied(views, kf0, i, views1, kf1),
    {
    }

    /// The dispatch half of a mouse-button event, after the button state
    /// and mouse focus have been brought up to date: the focused
    /// element's handler runs and its instruction is applied, followed by
    /// one geometry refresh; with no focused element, clicking empty
    /// space drops keyboard focus (with one refresh if there was any) and
    /// the event passes through.
    pub open spec fn mouse_dispatched<R: EventRemainder>(
        pre: Self,
        post: Self,
        event: Event,
        r: R,
    ) -> bool {
        &&& post.spec_mouse() == pre.spec_mouse()
        &&& post.spec_keybd() == pre.spec_keybd()
        &&& post.spec_mouse_focused() == pre.spec_mouse_focused()
        &&& post.spec_dims() == pre.spec_dims()
        &&& post.spec_scale() == pre.spec_scale()
        &&& post.spec_initialized() == pre.spec_initialized()
        &&& post.spec_last_indices() == pre.spec_last_indices()
        &&& match pre.spec_mouse_focused() {
            Option::Some(i) => {
                &&& Self::some_request_applied(
                    pre.spec_elements(),
                    pre.spec_keybd_focused(),
                    i as int,
                    post.spec_elements(),
                    post.spec_keybd_focused(),
                )
                &&& post.spec_refresh_count() == pre.spec_refresh_count() + 1
                &&& post.spec_last_vertices() == all_vertices(
                    post.spec_element_list(),
                    post.spec_dims(),
                    post.spec_scale(),
                )
                &&& (!pre.spec_elements()[i as int].mouse_handler_some ==> r.is_default()
                    && post.spec_elements() == pre.spec_elements() && post.spec_keybd_focused()
                    == pre.spec_keybd_focused())
            },
            Option::None => {
                &&& r.is_event(event)
                &&& post.spec_keybd_focused() is None
                &&& match pre.spec_keybd_focused() {
                    Option::Some(_) => {
                        &&& post.spec_elements() == with_keybd_focus(
                            pre.spec_elements(),
                            Option::None,
                        )
                        &&& post.spec_refresh_count() == pre.spec_refresh_count() + 1
                        &&& post.spec_last_vertices() == all_vertices(
                            post.spec_element_list(),
                            post.spec_dims(),
                            post.spec_scale(),
                        )
                    },
                    Option::None => {
                        &&& post.spec_elements() == pre.spec_elements()
                        &&& post.spec_element_list() == pre.spec_element_list()
                        &&& post.spec_refresh_count() == pre.spec_refresh_count()
                        &&& post.spec_last_vertices() == pre.spec_last_vertices()
                    },
                }
            },
        }
    }

    /// A whole mouse-button event: the button transition is recorded,
    /// mouse focus is re-resolved immediately (a press suppresses the
    /// resolution, so focus never slides mid-click), and the event is
    /// dispatched to the focused element or returned to the caller.
    pub open spec fn mouse_transition<R: EventRemainder>(
        pre: Self,
        post: Self,
        state: ElementState,
        button: MouseButton,
        event: Event,
        r: R,
    ) -> bool {
        let views0 = pre.spec_elements();
        let mf = resolved_mouse_focus(
            views0,
            post.spec_mouse(),
            pre.spec_dims(),
            pre.spec_mouse_focused(),
        );
        let views1 = (if mf == pre.spec_mouse_focused() {
            views0
        } else {
            with_mouse_focus(views0, mf)
        });
        let rc1 = pre.spec_refresh_count() + (if mf == pre.spec_mouse_focused() {
            0int
        } else {
            1int
        });
        &&& MouseState::button_stepped(pre.spec_mouse(), post.spec_mouse(), button, state)
        &&& post.spec_keybd() == pre.spec_keybd()
        &&& post.spec_dims() == pre.spec_dims()
        &&& post.spec_scale() == pre.spec_scale()
        &&& post.spec_initialized() == pre.spec_initialized()
        &&& post.spec_last_indices() == pre.spec_last_indices()
        &&& post.spec_mouse_focused() == mf
        &&& match mf {
            Option::Some(i) => {
                &&& Self::some_request_applied(
                    views1,
                    pre.spec_keybd_focused(),
                    i as int,
                    post.spec_elements(),
                    post.spec_keybd_focused(),
                )
                &&& post.spec_refresh_count() == rc1 + 1
                &&& post.spec_last_vertices() == all_vertices(
                    post.spec_element_list(),
                    post.spec_dims(),
                    post.spec_scale(),
                )
                &&& (!views1[i as int].mouse_handler_some ==> r.is_default()
                    && post.spec_elements() == views1 && post.spec_keybd_focused()
                    == pre.spec_keybd_focused())
            },
            Option::None => {
                &&& r.is_event(event)
                &&& post.spec_keybd_focused() is None
                &&& match pre.spec_keybd_focused() {
                    Option::Some(_) => {
                        &&& post.spec_elements() == with_keybd_focus(views1, Option::None)
                        &&& post.spec_refresh_count() == rc1 + 1
                        &&& post.spec_last_vertices() == all_vertices(
                            post.spec_element_list(),
                            post.spec_dims(),
                            post.spec_scale(),
                        )
                    },
                    Option::None => {
                        &&& post.spec_elements() == views1
                        &&& post.spec_refresh_count() == rc1
                        &&& (mf == pre.spec_mouse_focused() ==> post.spec_last_vertices()
                            == pre.spec_last_vertices())
                    },
                }
            },
        }
    }
}

} // verus!

verus! {

impl<M, K, S: GeometrySink> Pane<M, K, S> {
    /// Route a key transition: update the modifiers, check the hotkey
    /// table while control is held, otherwise forward to the
    /// keyboard-focused element.
    fn handle_keyboard_input<R: EventRemainder>(
        &mut self,
        key_state: ElementState,
        vk_code: Option<VirtualKeyCode>,
        event: Event,
    ) -> (r: R) where K: KeyboardEventHandler<R>
        requires
            old(self).wf(),
        ensures
            final(self).wf(),
            Self::keyboard_transition(*old(self), *final(self), key_state, vk_code, event, r),
    {
        let ghost pre = *self;
        self.keybd_state.update(key_state, vk_code);
        if self.keybd_state.control {
            // Control is down: only the hotkey table may consume the
            // event; elements never see it.
            match key_state {
                ElementState::Pressed => match vk_code {
                    Some(vkc) => match vkc {
                        VirtualKeyCode::Q => R::closed(),
                        _ => R::event(event),
                    },
                    None => R::event(event),
                },
                _ => R::event(event),
            }
        } else {
            let kf = self.keybd_focused;
            match kf {
                Some(i) => {
                    let kb = self.keybd_state;
                    // The handler's instruction is deliberately ignored
                    // for keyboard input; only the remainder travels up.
                    let (_req, rem) = self.elements[i].handle_keyboard_input::<R>(
                        key_state,
                        vk_code,
                        &kb,
                    );
                    proof {
                        let posts = self.spec_elements();
                        let pres = pre.spec_elements();
                        assert(posts[i as int].text_edit_of(pres[i as int]));
                        if !pres[i as int].keyboard_handler_some {
                            assert(posts =~= pres);
                        }
                        assert forall|j: int| 0 <= j < pres.len() && j != i implies #[trigger] posts[j]
                            == pres[j] by {
                            assert(self.elements@[j] == pre.elements@[j]);
                        }
                        assert(mouse_focus_coherent(posts, self.mouse_focused)) by {
                            assert(posts[i as int].mouse_focus == pres[i as int].mouse_focus);
                            match pre.spec_mouse_focused() {
                                Option::Some(mi) => {
                                    assert(posts[mi as int].mouse_focus);
                                },
                                Option::None => {},
                            }
                        }
                        assert(keybd_focus_coherent(posts, self.keybd_focused)) by {
                            assert(posts[i as int].keybd_focus == pres[i as int].keybd_focus);
                        }
                        assert(forall|n: int|
                            0 <= n < self.elements@.len() ==> (#[trigger] self.elements@[n]).wf());
                    }
                    rem
                },
                None => R::event(event),
            }
        }
    }

    /// Dispatch a mouse-button event to the mouse-focused element, apply
    /// its instruction to the keyboard-focus domain, and refresh the
    /// geometry; with no focused element, drop keyboard focus and pass
    /// the event up.
    fn handle_mouse_input<R: EventRemainder>(
        &mut self,
        state: ElementState,
        button: MouseButton,
        event: Event,
    ) -> (r: R) where M: MouseEventHandler<R>
        requires
            old(self).wf(),
            old(self).spec_initialized(),
        ensures
            final(self).wf(),
            final(self).spec_initialized(),
            Self::mouse_dispatched(*old(self), *final(self), event, r),
    {
        let ghost pre = *self;
        match self.mouse_focused {
            Some(i) => {
                let (req, rem) = self.elements[i].handle_mouse_input::<R>(state, button);
                let ghost views_mid = self.spec_elements();
                proof {
                    assert(views_mid =~= pre.spec_elements());
                }
                match req {
                    UiRequest::KeyboardFocus(claim) => {
                        if claim {
                            match self.keybd_focused {
                                Some(j) => {
                                    if j != i {
                                        self.elements[j].set_keybd_focus(false);
                                    }
                                },
                                None => {},
                            }
                            self.elements[i].set_keybd_focus(true);
                            self.keybd_focused = Some(i);
                            proof {
                                assert(self.spec_elements() =~= with_keybd_focus(
                                    views_mid,
                                    Some(i),
                                ));
                            }
                        } else {
                            if opt_eq(self.keybd_focused, Some(i)) {
                                self.elements[i].set_keybd_focus(false);
                                self.keybd_focused = None;
                                proof {
                                    assert(self.spec_elements() =~= with_keybd_focus(
                                        views_mid,
                                        Option::None,
                                    ));
                                }
                            }
                        }
                    },
                    _ => {},
                }
                proof {
                    assert(Self::request_applied(
                        pre.spec_elements(),
                        pre.spec_keybd_focused(),
                        i as int,
                        req,
                        self.spec_elements(),
                        self.spec_keybd_focused(),
                    ));
                    assert(mouse_focus_coherent(self.spec_elements(), self.mouse_focused)) by {
                        assert forall|n: int| 0 <= n < self.spec_elements().len() implies self
                            .spec_elements()[n].mouse_focus == pre.spec_elements()[n].mouse_focus
                        by {}
                    }
                    assert(keybd_focus_coherent(self.spec_elements(), self.keybd_focused));
                    assert(forall|n: int|
                        0 <= n < self.elements@.len() ==> (#[trigger] self.elements@[n]).wf());
                }
                let ghost kf_after = self.spec_keybd_focused();
                let ghost views_after = self.spec_elements();
                self.refresh_vertices();
                proof {
                    Self::lemma_some_request_applied(
                        pre.spec_elements(),
                        pre.spec_keybd_focused(),
                        i as int,
                        req,
                        views_after,
                        kf_after,
                    );
                }
                rem
            },
            None => {
                match self.keybd_focused {
                    Some(j) => {
                        let ghost views0 = self.spec_elements();
                        self.elements[j].set_keybd_focus(false);
                        self.keybd_focused = None;
                        proof {
                            assert(self.spec_elements() =~= with_keybd_focus(
                                views0,
                                Option::None,
                            ));
                            assert(mouse_focus_coherent(self.spec_elements(), self.mouse_focused))
                                by {
                                match pre.spec_mouse_focused() {
                                    Option::Some(mi) => {
                                        assert(self.spec_elements()[mi as int].mouse_focus);
                                    },
                                    Option::None => {},
                                }
                            }
                            assert(keybd_focus_coherent(
                                self.spec_elements(),
                                self.keybd_focused,
                            ));
                            assert(forall|n: int|
                                0 <= n < self.elements@.len() ==> (
                                #[trigger] self.elements@[n]).wf());
                        }
                        self.refresh_vertices();
                    },
                    None => {},
                }
                R::event(event)
            },
        }
    }

    /// Handle one raw input event and hand back what the interface layer
    /// did not consume.
    #[verifier::rlimit(100)]
    pub fn handle_event<R: EventRemainder>(&mut self, event: Event) -> (r: R) where
        M: MouseEventHandler<R>,
        K: KeyboardEventHandler<R>,

        requires
            old(self).wf(),
            event is Resized || event is MouseInput ==> old(self).spec_initialized(),
        ensures
            final(self).wf(),
            final(self).spec_initialized() == old(self).spec_initialized(),
            match event {
                Event::Resized(w, h) => Self::resize_transition(*old(self), *final(self), w, h)
                    && r.is_event(event),
                Event::KeyboardInput { state, scancode: _, virtual_keycode } => Self::keyboard_transition(
                    *old(self),
                    *final(self),
                    state,
                    virtual_keycode,
                    event,
                    r,
                ),
                Event::MouseInput { state, button } => Self::mouse_transition(
                    *old(self),
                    *final(self),
                    state,
                    button,
                    event,
                    r,
                ),
                Event::CursorMoved { x, y } => Self::motion_transition(
                    *old(self),
                    *final(self),
                    x,
                    y,
                ) && r.is_event(event),
                Event::MouseWheel => Self::unchanged(*old(self), *final(self)) && r.is_event(
                    event,
                ),
                Event::Other => Self::unchanged(*old(self), *final(self)) && r.is_event(event),
            },
    {
        let ghost pre = *self;
        match event {
            Event::Resized(w, h) => {
                let w2 = if w == 0 {
                    1
                } else {
                    w
                };
                let h2 = if h == 0 {
                    1
                } else {
                    h
                };
                self.surface_dims = (w2, h2);
                self.refresh_vertices();
                proof {
                    assert(Self::resize_transition(pre, *self, w, h));
                }
                R::event(event)
            },
            Event::KeyboardInput { state, scancode: _, virtual_keycode } => {
                let out = self.handle_keyboard_input(state, virtual_keycode, event);
                proof {
                    assert(Self::keyboard_transition(pre, *self, state, virtual_keycode, event,
                        out));
                }
                out
            },
            Event::MouseInput { state, button } => {
                self.mouse_state.set_button(button, state);
                let ghost mid1 = *self;
                self.update_mouse_focus();
                let ghost mid2 = *self;
                let out = self.handle_mouse_input(state, button, event);
                proof {
                    let mf = resolved_mouse_focus(
                        pre.spec_elements(),
                        mid1.spec_mouse(),
                        pre.spec_dims(),
                        pre.spec_mouse_focused(),
                    );
                    assert(mid1.spec_elements() =~= pre.spec_elements());
                    let views1 = if mf == pre.spec_mouse_focused() {
                        pre.spec_elements()
                    } else {
                        with_mouse_focus(pre.spec_elements(), mf)
                    };
                    assert(mid2.spec_elements() == views1);
                    match mf {
                        Option::Some(i) => {
                            let q = choose|q: UiRequest|
                                Self::request_applied(
                                    mid2.spec_elements(),
                                    mid2.spec_keybd_focused(),
                                    i as int,
                                    q,
                                    self.spec_elements(),
                                    self.spec_keybd_focused(),
                                );
                            Self::lemma_some_request_applied(
                                views1,
                                pre.spec_keybd_focused(),
                                i as int,
                                q,
                                self.spec_elements(),
                                self.spec_keybd_focused(),
                            );
                        },
                        Option::None => {},
                    }
                    assert(Self::mouse_transition(pre, *self, state, button, event, out));
                }
                out
            },
            Event::CursorMoved { x, y } => {
                self.mouse_state.update_position((x, y));
                proof {
                    assert(Self::motion_transition(pre, *self, x, y));
                }
                R::event(event)
            },
            Event::MouseWheel => R::event(event),
            Event::Other => R::event(event),
        }
    }

    /// The per-frame preparation the draw cycle runs: record the
    /// surface's current dimensions and re-resolve mouse focus against
    /// them.
    pub fn prepare_frame(&mut self, surface_dims: (u32, u32))
        requires
            old(self).wf(),
            old(self).spec_initialized(),
        ensures
            final(self).wf(),
            final(self).spec_initialized(),
            Self::focus_pass(*old(self), *final(self), dims_clamped(surface_dims)),
    {
        let w = if surface_dims.0 == 0 {
            1
        } else {
            surface_dims.0
        };
        let h = if surface_dims.1 == 0 {
            1
        } else {
            surface_dims.1
        };
        self.surface_dims = (w, h);
        self.update_mouse_focus();
    }
}

} // verus!

verus! {

/// First-match-wins ordering law: when a point lies inside an earlier
/// element's hit region, the hit-test can only pick that element or an
/// even earlier one — never an element later in registration order.
pub proof fn lemma_first_match_wins(views: Seq<ElementView>, p: NormPoint, a: int, b: int)
    requires
        views.len() <= usize::MAX,
        0 <= a < b < views.len(),
        views[a].region.spec_contains(p),
    ensures
        first_hit(views, p) matches Some(w) && w as int <= a,
        first_hit(views, p) != Some(b as usize),
{
    lemma_first_hit_sound(views, p);
    match first_hit(views, p) {
        Option::Some(w) => {
            if w as int > a {
                assert(!views[a].region.spec_contains(p));
            }
        },
        Option::None => {
            assert(!views[a].region.spec_contains(p));
        },
    }
}

impl<M, K, S> Pane<M, K, S> {
    /// At most one element holds mouse focus and at most one holds
    /// keyboard focus: any two distinct elements disagree on each focus
    /// flag.
    pub proof fn lemma_focus_exclusive(self)
        requires
            self.wf(),
        ensures
            forall|a: int, b: int|
                0 <= a < b < self.spec_elements().len() ==> !((
                #[trigger] self.spec_elements()[a]).mouse_focus && (
                #[trigger] self.spec_elements()[b]).mouse_focus),
            forall|a: int, b: int|
                0 <= a < b < self.spec_elements().len() ==> !((
                #[trigger] self.spec_elements()[a]).keybd_focus && (
                #[trigger] self.spec_elements()[b]).keybd_focus),
    {
        let views = self.spec_elements();
        assert forall|a: int, b: int| 0 <= a < b < views.len() implies !((
        #[trigger] views[a]).mouse_focus && (#[trigger] views[b]).mouse_focus) by {
            match self.spec_mouse_focused() {
                Option::Some(i) => {
                    if a != i {
                        assert(!views[a].mouse_focus);
                    }
                    if b != i {
                        assert(!views[b].mouse_focus);
                    }
                },
                Option::None => {
                    assert(!views[a].mouse_focus);
                },
            }
        }
        assert forall|a: int, b: int| 0 <= a < b < views.len() implies !((
        #[trigger] views[a]).keybd_focus && (#[trigger] views[b]).keybd_focus) by {
            match self.spec_keybd_focused() {
                Option::Some(i) => {
                    if a != i {
                        assert(!views[a].keybd_focus);
                    }
                    if b != i {
                        assert(!views[b].keybd_focus);
                    }
                },
                Option::None => {
                    assert(!views[a].keybd_focus);
                },
            }
        }
    }

    /// A press of a first-class mouse button never changes which element
    /// holds mouse focus: resolution is suppressed while a button is
    /// down, so focus cannot slide mid-click even when the pointer
    /// overlaps several elements.
    pub proof fn lemma_press_preserves_mouse_focus<R: EventRemainder>(
        pre: Self,
        post: Self,
        button: MouseButton,
        event: Event,
        r: R,
    )
        requires
            Self::mouse_transition(pre, post, ElementState::Pressed, button, event, r),
            button == MouseButton::Left || button == MouseButton::Right || button
                == MouseButton::Middle,
        ensures
            post.spec_mouse_focused() == pre.spec_mouse_focused(),
    {
        assert(post.spec_mouse().spec_button(button) is Pressed);
        assert(post.spec_mouse().spec_any_pressed());
    }

    /// Clicking empty space while some element holds keyboard focus
    /// always clears keyboard focus and triggers exactly one geometry
    /// refresh.
    pub proof fn lemma_empty_click_clears_keyboard_focus<R: EventRemainder>(
        pre: Self,
        post: Self,
        button: MouseButton,
        event: Event,
        r: R,
    )
        requires
            Self::mouse_transition(pre, post, ElementState::Pressed, button, event, r),
            button == MouseButton::Left || button == MouseButton::Right || button
                == MouseButton::Middle,
            pre.spec_mouse_focused() is None,
            pre.spec_keybd_focused() is Some,
        ensures
            post.spec_keybd_focused() is None,
            post.spec_refresh_count() == pre.spec_refresh_count() + 1,
    {
        assert(post.spec_mouse().spec_button(button) is Pressed);
        assert(post.spec_mouse().spec_any_pressed());
    }
}

} // verus!
