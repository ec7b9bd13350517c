//! Mouse input normalizer.
//!
//! Tracks the absolute cursor position, the cumulative motion delta since
//! the last per-tick reset, and the pressed-button set with its
//! previous-tick snapshot for edge detection. The delta accumulates across
//! every motion event within one tick and is zeroed exactly once per tick
//! by the frame driver, after draw.

use vstd::prelude::*;
use crate::scalar::{sat_add, sat_sub, sat_add_i64, sat_sub_i64, accumulate, seq_sum,
    lemma_accumulate_exact};
use crate::seqs::{seq_no_dups, seq_set_rel, lemma_push_set_rel, lemma_present_set_rel,
    lemma_absent_set_rel};

verus! {

/// A mouse button.
#[derive(Clone, Copy, Debug, PartialEq, Eq, Structural)]
pub enum MouseButton {
    Left,
    Right,
    Middle,
    Back,
    Forward,
    /// Another button, under a host-assigned code.
    Other(u16),
}

/// A point of the logical coordinate space.
#[derive(Clone, Copy, Debug, PartialEq, Eq, Structural)]
pub struct ScreenPoint {
    pub x: i64,
    pub y: i64,
}

/// Mouse sub-context: position, cumulative delta, button sets.
pub struct MouseContext {
    pos_x: i64,
    pos_y: i64,
    delta_x: i64,
    delta_y: i64,
    buttons: Vec<MouseButton>,
    previous_buttons: Vec<MouseButton>,
}

impl MouseContext {
    /// The absolute cursor position.
    pub closed spec fn spec_position(&self) -> (int, int) {
        (self.pos_x as int, self.pos_y as int)
    }

    /// The cumulative motion delta since the last per-tick reset.
    pub closed spec fn spec_delta(&self) -> (int, int) {
        (self.delta_x as int, self.delta_y as int)
    }

    /// The buttons currently held down.
    pub closed spec fn buttons_pressed(&self) -> Seq<MouseButton> {
        self.buttons@
    }

    /// The buttons that were held down when the previous tick was
    /// committed.
    pub closed spec fn previous_pressed(&self) -> Seq<MouseButton> {
        self.previous_buttons@
    }

    /// The button sets hold no duplicates.
    pub open spec fn wf(&self) -> bool {
        &&& seq_no_dups(self.buttons_pressed())
        &&& seq_no_dups(self.previous_pressed())
    }

    /// A button is "just pressed" when it is down now but was not down at
    /// the previous tick's commit.
    pub open spec fn spec_just_pressed(&self, button: MouseButton) -> bool {
        self.buttons_pressed().contains(button) && !self.previous_pressed().contains(button)
    }

    /// A button is "just released" when it is up now but was down at the
    /// previous tick's commit.
    pub open spec fn spec_just_released(&self, button: MouseButton) -> bool {
        !self.buttons_pressed().contains(button) && self.previous_pressed().contains(button)
    }

    /// How a cursor move to `(x, y)` changes the mouse state: the
    /// position is replaced and the difference from the old position
    /// joins the cumulative delta.
    pub open spec fn move_rel(pre: MouseContext, post: MouseContext, x: i64, y: i64) -> bool {
        &&& post.spec_position() == (x as int, y as int)
        &&& post.spec_delta().0 == sat_add(
            pre.spec_delta().0,
            sat_sub(x as int, pre.spec_position().0),
        )
        &&& post.spec_delta().1 == sat_add(
            pre.spec_delta().1,
            sat_sub(y as int, pre.spec_position().1),
        )
        &&& post.buttons_pressed() == pre.buttons_pressed()
        &&& post.previous_pressed() == pre.previous_pressed()
    }

    /// How a raw device motion changes the mouse state: the raw delta
    /// joins the cumulative delta and nothing else moves.
    pub open spec fn motion_rel(pre: MouseContext, post: MouseContext, dx: i64, dy: i64) -> bool {
        &&& post.spec_position() == pre.spec_position()
        &&& post.spec_delta().0 == sat_add(pre.spec_delta().0, dx as int)
        &&& post.spec_delta().1 == sat_add(pre.spec_delta().1, dy as int)
        &&& post.buttons_pressed() == pre.buttons_pressed()
        &&& post.previous_pressed() == pre.previous_pressed()
    }

    /// How a button event changes the mouse state.
    pub open spec fn button_rel(
        pre: MouseContext,
        post: MouseContext,
        button: MouseButton,
        pressed: bool,
    ) -> bool {
        &&& seq_set_rel(pre.buttons_pressed(), post.buttons_pressed(), button, pressed)
        &&& post.previous_pressed() == pre.previous_pressed()
        &&& post.spec_position() == pre.spec_position()
        &&& post.spec_delta() == pre.spec_delta()
    }

    /// A fresh mouse context at the origin with no buttons down.
    pub fn new() -> (mc: MouseContext)
        ensures
            mc.wf(),
            mc.spec_position() == (0int, 0int),
            mc.spec_delta() == (0int, 0int),
            mc.buttons_pressed() == Seq::<MouseButton>::empty(),
            mc.previous_pressed() == Seq::<MouseButton>::empty(),
    {
        MouseContext {
            pos_x: 0,
            pos_y: 0,
            delta_x: 0,
            delta_y: 0,
            buttons: Vec::new(),
            previous_buttons: Vec::new(),
        }
    }

    /// Records a cursor move to an absolute position: the difference from
    /// the previous position joins the cumulative delta.
    pub fn handle_move(&mut self, x: i64, y: i64)
        requires
            old(self).wf(),
        ensures
            final(self).wf(),
            MouseContext::move_rel(*old(self), *final(self), x, y),
    {
        let dx = sat_sub_i64(x, self.pos_x);
        let dy = sat_sub_i64(y, self.pos_y);
        self.delta_x = sat_add_i64(self.delta_x, dx);
        self.delta_y = sat_add_i64(self.delta_y, dy);
        self.pos_x = x;
        self.pos_y = y;
    }

    /// Records a raw device motion: the raw delta joins the cumulative
    /// delta; the absolute position is untouched.
    pub fn handle_motion(&mut self, dx: i64, dy: i64)
        requires
            old(self).wf(),
        ensures
            final(self).wf(),
            MouseContext::motion_rel(*old(self), *final(self), dx, dy),
    {
        self.delta_x = sat_add_i64(self.delta_x, dx);
        self.delta_y = sat_add_i64(self.delta_y, dy);
    }

    /// Records a button going down or up.
    pub fn set_button(&mut self, button: MouseButton, pressed: bool)
        requires
            old(self).wf(),
        ensures
            final(self).wf(),
            MouseContext::button_rel(*old(self), *final(self), button, pressed),
    {
        let already = contains_button(&self.buttons, button);
        if pressed {
            if !already {
                self.buttons.push(button);
                proof {
                    lemma_push_set_rel(old(self).buttons_pressed(), button);
                }
            } else {
                proof {
                    lemma_present_set_rel(old(self).buttons_pressed(), button);
                }
            }
        } else {
            if already {
                let next = remove_button(&self.buttons, button);
                self.buttons = next;
            } else {
                proof {
                    lemma_absent_set_rel(old(self).buttons_pressed(), button);
                }
            }
        }
    }

    /// The absolute cursor position.
    pub fn position(&self) -> (r: ScreenPoint)
        ensures
            (r.x as int, r.y as int) == self.spec_position(),
    {
        ScreenPoint { x: self.pos_x, y: self.pos_y }
    }

    /// The cumulative motion delta since the last per-tick reset.
    pub fn last_delta(&self) -> (r: ScreenPoint)
        ensures
            (r.x as int, r.y as int) == self.spec_delta(),
    {
        ScreenPoint { x: self.delta_x, y: self.delta_y }
    }

    /// Whether the button is currently held down.
    pub fn is_button_pressed(&self, button: MouseButton) -> (r: bool)
        ensures
            r == self.buttons_pressed().contains(button),
    {
        contains_button(&self.buttons, button)
    }

    /// Whether the button went down since the previous tick's commit.
    pub fn is_button_just_pressed(&self, button: MouseButton) -> (r: bool)
        ensures
            r == self.spec_just_pressed(button),
    {
        let now = contains_button(&self.buttons, button);
        let before = contains_button(&self.previous_buttons, button);
        now && !before
    }

    /// Whether the button went up since the previous tick's commit.
    pub fn is_button_just_released(&self, button: MouseButton) -> (r: bool)
        ensures
            r == self.spec_just_released(button),
    {
        let now = contains_button(&self.buttons, button);
        let before = contains_button(&self.previous_buttons, button);
        !now && before
    }

    /// Zeroes the cumulative delta. The frame driver calls this exactly
    /// once per tick, after draw.
    pub fn reset_delta(&mut self)
        requires
            old(self).wf(),
        ensures
            final(self).wf(),
            final(self).spec_delta() == (0int, 0int),
            final(self).spec_position() == old(self).spec_position(),
            final(self).buttons_pressed() == old(self).buttons_pressed(),
            final(self).previous_pressed() == old(self).previous_pressed(),
    {
        self.delta_x = 0;
        self.delta_y = 0;
    }

    /// Commits the current button set as the previous-tick snapshot. The
    /// frame driver calls this exactly once per tick, after draw.
    pub fn save_mouse_state(&mut self)
        requires
            old(self).wf(),
        ensures
            final(self).wf(),
            final(self).previous_pressed() == old(self).buttons_pressed(),
            final(self).buttons_pressed() == old(self).buttons_pressed(),
            final(self).spec_position() == old(self).spec_position(),
            final(self).spec_delta() == old(self).spec_delta(),
    {
        let snapshot = copy_buttons(&self.buttons);
        self.previous_buttons = snapshot;
    }
}

/// Law: within one tick the cumulative delta equals the vector sum of the
/// individual raw deltas applied since the last reset, componentwise,
/// whenever no intermediate sum leaves the `i64` range. Each motion event
/// performs one saturating-addition step, so the delta after a tick's
/// motions is `accumulate(0, ds)` per component; under the range bound that
/// is the exact sum. The reset step returns the delta to exactly (0, 0),
/// stated by `reset_delta`'s contract.
pub proof fn lemma_per_tick_delta_is_vector_sum(dxs: Seq<int>, dys: Seq<int>)
    requires
        forall|i: int| 0 <= i <= dxs.len() ==> i64::MIN <= #[trigger] seq_sum(dxs.take(i)) <= i64::MAX,
        forall|i: int| 0 <= i <= dys.len() ==> i64::MIN <= #[trigger] seq_sum(dys.take(i)) <= i64::MAX,
    ensures
        accumulate(0, dxs) == seq_sum(dxs),
        accumulate(0, dys) == seq_sum(dys),
{
    lemma_accumulate_exact(0, dxs);
    lemma_accumulate_exact(0, dys);
}

fn contains_button(v: &Vec<MouseButton>, button: MouseButton) -> (r: bool)
    ensures
        r == v@.contains(button),
{
    let mut i: usize = 0;
    while i < v.len()
        invariant
            0 <= i <= v@.len(),
            forall|j: int| 0 <= j < i ==> v@[j] != button,
        decreases v@.len() - i,
    {
        if v[i] == button {
            assert(v@[i as int] == button);
            return true;
        }
        i += 1;
    }
    false
}

fn copy_buttons(v: &Vec<MouseButton>) -> (r: Vec<MouseButton>)
    ensures
        r@ == v@,
{
    let mut r: Vec<MouseButton> = Vec::new();
    let mut i: usize = 0;
    while i < v.len()
        invariant
            0 <= i <= v@.len(),
            r@ == v@.take(i as int),
        decreases v@.len() - i,
    {
        r.push(v[i]);
        proof {
            assert(v@.take(i + 1 as int) =~= v@.take(i as int).push(v@[i as int]));
        }
        i += 1;
    }
    proof {
        assert(v@.take(v@.len() as int) =~= v@);
    }
    r
}

fn remove_button(v: &Vec<MouseButton>, button: MouseButton) -> (r: Vec<MouseButton>)
    requires
        seq_no_dups(v@),
    ensures
        seq_no_dups(r@),
        seq_set_rel(v@, r@, button, false),
{
    let mut r: Vec<MouseButton> = Vec::new();
    let mut i: usize = 0;
    while i < v.len()
        invariant
            0 <= i <= v@.len(),
            seq_no_dups(v@),
            seq_no_dups(r@),
            forall|x: MouseButton|
                #[trigger] r@.contains(x) <==> (v@.take(i as int).contains(x) && x != button),
        decreases v@.len() - i,
    {
        let x = v[i];
        if x != button {
            proof {
                assert(!r@.contains(x)) by {
                    if r@.contains(x) {
                        let j = choose|j: int| 0 <= j < i && v@.take(i as int)[j] == x;
                        assert(v@[j] == x && v@[i as int] == x);
                    }
                }
                lemma_push_set_rel(r@, x);
            }
            r.push(x);
        }
        proof {
            assert(v@.take(i + 1 as int) =~= v@.take(i as int).push(v@[i as int]));
            lemma_push_set_rel(v@.take(i as int), v@[i as int]);
        }
        i += 1;
    }
    proof {
        assert(v@.take(v@.len() as int) =~= v@);
    }
    r
}

} // verus!
