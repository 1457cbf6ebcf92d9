//! Pointer state: a two-slot position history with a staleness flag, and
//! per-button pressed/released state.

use std::collections::HashMap;
use vstd::prelude::*;

use crate::ui::events::{ElementState, MouseButton};

verus! {

broadcast use vstd::std_specs::hash::group_hash_axioms;

/// A pointer position in surface-normalized coordinates, kept as a pair of
/// exact rationals: `x = x_num / x_den`, `y = y_num / y_den`, with positive
/// denominators.
pub struct NormPoint {
    pub x_num: i64,
    pub x_den: i64,
    pub y_num: i64,
    pub y_den: i64,
}

impl NormPoint {
    /// Both denominators are positive, so cross-multiplied comparisons keep
    /// their order.
    pub open spec fn wf(self) -> bool {
        self.x_den > 0 && self.y_den > 0
    }

    /// True exactly when the point is the whole-number coordinate `(x, y)`.
    pub fn eq_whole(&self, x: i64, y: i64) -> (r: bool)
        requires
            self.wf(),
        ensures
            r == (self.x_num == x * self.x_den && self.y_num == y * self.y_den),
    {
        assert({
            let lo = -0x8000_0000_0000_0000_0000_0000_0000_0000int;
            let hi = 0x8000_0000_0000_0000_0000_0000_0000_0000int;
            lo < x * self.x_den < hi && lo < y * self.y_den < hi
        })
            by (nonlinear_arith)
            requires
                -0x8000_0000_0000_0000 <= x && (x as int) < 0x8000_0000_0000_0000,
                -0x8000_0000_0000_0000 <= self.x_den && (self.x_den as int)
                    < 0x8000_0000_0000_0000,
                -0x8000_0000_0000_0000 <= self.y_den && (self.y_den as int)
                    < 0x8000_0000_0000_0000,
                -0x8000_0000_0000_0000 <= y && (y as int) < 0x8000_0000_0000_0000,
        ;
        (self.x_num as i128) == (x as i128) * (self.x_den as i128) && (self.y_num as i128) == (
        y as i128) * (self.y_den as i128)
    }
}

/// The normalized x numerator for pixel column `px` on a surface `w` pixels
/// wide: `x = (2 * px / w) - 1 = (2 * px - w) / w`.
pub open spec fn norm_x_num(px: int, w: int) -> int {
    2 * px - w
}

/// The normalized y numerator for pixel row `py` on a surface `h` pixels
/// tall; the vertical axis is flipped to match the rendering convention:
/// `y = -((2 * py / h) - 1) = (h - 2 * py) / h`.
pub open spec fn norm_y_num(py: int, h: int) -> int {
    h - 2 * py
}

/// The exact normalized point for a pixel position on a surface of the
/// given dimensions.
pub open spec fn norm_point_of(pos: (i32, i32), dims: (u32, u32)) -> NormPoint {
    NormPoint {
        x_num: norm_x_num(pos.0 as int, dims.0 as int) as i64,
        x_den: dims.0 as i64,
        y_num: norm_y_num(pos.1 as int, dims.1 as int) as i64,
        y_den: dims.1 as i64,
    }
}

/// Pointer state: the last two integer pixel positions in a two-slot
/// ping-pong buffer selected by `frame`, a staleness flag, and the
/// pressed/released state of every mouse button.
///
/// `stale` records that the pointer has not moved since the last processed
/// motion event (or that the caller marked the history stale by hand), so a
/// hit-test re-run may be skipped.
pub struct MouseState {
    slot0: (i32, i32),
    slot1: (i32, i32),
    frame: bool,
    left: ElementState,
    right: ElementState,
    middle: ElementState,
    other: HashMap<u8, ElementState>,
    stale: bool,
}

impl MouseState {
    /// The current pointer position: the slot selected by `frame`.
    pub closed spec fn spec_position(self) -> (i32, i32) {
        if self.frame {
            self.slot1
        } else {
            self.slot0
        }
    }

    /// The staleness flag.
    pub closed spec fn spec_stale(self) -> bool {
        self.stale
    }

    /// The recorded state of a button. A button never seen reads as
    /// released.
    pub closed spec fn spec_button(self, button: MouseButton) -> ElementState {
        match button {
            MouseButton::Left => self.left,
            MouseButton::Right => self.right,
            MouseButton::Middle => self.middle,
            MouseButton::Other(b) => {
                if self.other@.contains_key(b) {
                    self.other@[b]
                } else {
                    ElementState::Released
                }
            },
        }
    }

    /// Whether any first-class button (left, middle or right) is pressed;
    /// "other" buttons are deliberately not included.
    pub open spec fn spec_any_pressed(self) -> bool {
        self.spec_button(MouseButton::Left) is Pressed || self.spec_button(
            MouseButton::Middle,
        ) is Pressed || self.spec_button(MouseButton::Right) is Pressed
    }

    /// Both button states agree on every button.
    pub open spec fn buttons_agree(self, other: MouseState) -> bool {
        forall|b: MouseButton| #[trigger] self.spec_button(b) == other.spec_button(b)
    }

    /// `post` is `pre` with exactly one button transition recorded:
    /// position and staleness are untouched.
    pub open spec fn button_stepped(
        pre: MouseState,
        post: MouseState,
        button: MouseButton,
        state: ElementState,
    ) -> bool {
        &&& post.spec_button(button) == state
        &&& forall|b2: MouseButton|
            b2 != button ==> #[trigger] post.spec_button(b2) == pre.spec_button(b2)
        &&& post.spec_position() == pre.spec_position()
        &&& post.spec_stale() == pre.spec_stale()
    }

    /// The state after one pointer-motion event to `p`: an unmoved pointer
    /// only marks the history stale; a genuine move flips the slot, stores
    /// the new position, and clears staleness.
    pub closed spec fn motion_step(self, p: (i32, i32)) -> MouseState {
        if p == self.spec_position() {
            MouseState { stale: true, ..self }
        } else if self.frame {
            MouseState { frame: false, slot0: p, stale: false, ..self }
        } else {
            MouseState { frame: true, slot1: p, stale: false, ..self }
        }
    }

    /// A zeroed state: position `(0, 0)`, not stale, every button released.
    pub fn new() -> (r: MouseState)
        ensures
            r.spec_position() == (0i32, 0i32),
            !r.spec_stale(),
            forall|b: MouseButton| #[trigger] r.spec_button(b) is Released,
    {
        MouseState {
            slot0: (0, 0),
            slot1: (0, 0),
            frame: false,
            left: ElementState::Released,
            right: ElementState::Released,
            middle: ElementState::Released,
            other: HashMap::new(),
            stale: false,
        }
    }

    /// The current pointer position in pixels.
    pub fn position(&self) -> (r: (i32, i32))
        ensures
            r == self.spec_position(),
    {
        if self.frame {
            self.slot1
        } else {
            self.slot0
        }
    }

    /// The current pointer position mapped into surface-normalized
    /// coordinates, exactly: `x = (2 * px - w) / w`, `y = (h - 2 * py) / h`.
    pub fn surface_position(&self, surface_dims: (u32, u32)) -> (r: NormPoint)
        requires
            surface_dims.0 >= 1,
            surface_dims.1 >= 1,
        ensures
            r.wf(),
            r.x_num == norm_x_num(self.spec_position().0 as int, surface_dims.0 as int),
            r.x_den == surface_dims.0,
            r.y_num == norm_y_num(self.spec_position().1 as int, surface_dims.1 as int),
            r.y_den == surface_dims.1,
            r == norm_point_of(self.spec_position(), surface_dims),
    {
        let (sw, sh) = surface_dims;
        let (px, py) = self.position();
        NormPoint {
            x_num: 2 * (px as i64) - (sw as i64),
            x_den: sw as i64,
            y_num: (sh as i64) - 2 * (py as i64),
            y_den: sh as i64,
        }
    }

    /// Record a pointer-motion event.
    pub fn update_position(&mut self, new_pos: (i32, i32))
        ensures
            *final(self) == old(self).motion_step(new_pos),
            final(self).spec_position() == new_pos,
            final(self).spec_stale() == (new_pos == old(self).spec_position()),
            final(self).buttons_agree(*old(self)),
    {
        let cur = self.position();
        if new_pos.0 == cur.0 && new_pos.1 == cur.1 {
            self.stale = true;
        } else {
            self.frame = !self.frame;
            if self.frame {
                self.slot1 = new_pos;
            } else {
                self.slot0 = new_pos;
            }
            self.stale = false;
        }
    }

    /// Record a button transition.
    pub fn set_button(&mut self, button: MouseButton, state: ElementState)
        ensures
            final(self).spec_button(button) == state,
            forall|b: MouseButton|
                b != button ==> #[trigger] final(self).spec_button(b) == old(self).spec_button(b),
            final(self).spec_position() == old(self).spec_position(),
            final(self).spec_stale() == old(self).spec_stale(),
            MouseState::button_stepped(*old(self), *final(self), button, state),
    {
        match button {
            MouseButton::Left => self.left = state,
            MouseButton::Right => self.right = state,
            MouseButton::Middle => self.middle = state,
            MouseButton::Other(b) => {
                self.other.insert(b, state);
            },
        }
    }

    /// Mark the position history stale by hand, so the next focus
    /// resolution skips its hit-test.
    pub fn set_stale(&mut self)
        ensures
            final(self).spec_stale(),
            final(self).spec_position() == old(self).spec_position(),
            final(self).buttons_agree(*old(self)),
    {
        self.stale = true;
    }

    /// Whether the pointer has moved since the last processed motion event.
    pub fn is_stale(&self) -> (r: bool)
        ensures
            r == self.spec_stale(),
    {
        self.stale
    }

    /// Read a button's recorded state; a button never seen reads as
    /// released.
    pub fn button(&self, button: MouseButton) -> (r: ElementState)
        ensures
            r == self.spec_button(button),
    {
        match button {
            MouseButton::Left => self.left,
            MouseButton::Right => self.right,
            MouseButton::Middle => self.middle,
            MouseButton::Other(b) => {
                match self.other.get(&b) {
                    Some(s) => *s,
                    None => ElementState::Released,
                }
            },
        }
    }

    /// Whether any of the left, middle or right buttons is pressed.
    pub fn any_pressed(&self) -> (r: bool)
        ensures
            r == self.spec_any_pressed(),
    {
        let l = self.button(MouseButton::Left);
        let m = self.button(MouseButton::Middle);
        let rgt = self.button(MouseButton::Right);
        l == ElementState::Pressed || m == ElementState::Pressed || rgt == ElementState::Pressed
    }
}

/// The position history after `n` consecutive motion events to the single
/// coordinate `c`.
pub open spec fn motions_to(ms: MouseState, c: (i32, i32), n: nat) -> MouseState
    decreases n,
{
    if n == 0 {
        ms
    } else {
        motions_to(ms, c, (n - 1) as nat).motion_step(c)
    }
}

/// Staleness idempotence: issuing consecutive pointer-motion events to the
/// same coordinate leaves the history stale from the second event on, and
/// it stays stale until a differing coordinate is supplied, which clears
/// the flag at once.
pub proof fn lemma_staleness_idempotence(ms: MouseState, c: (i32, i32), n: nat, d: (i32, i32))
    requires
        n >= 2,
        d != c,
    ensures
        motions_to(ms, c, n).spec_position() == c,
        motions_to(ms, c, n).spec_stale(),
        !motions_to(ms, c, n).motion_step(d).spec_stale(),
    decreases n,
{
    if n == 2 {
        assert(motions_to(ms, c, 1).spec_position() == c);
    } else {
        lemma_staleness_idempotence(ms, c, (n - 1) as nat, d);
    }
}

} // verus!
