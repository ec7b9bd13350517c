//! The context: the mutable environment the core threads through every
//! callback.
//!
//! It aggregates independently-addressable sub-contexts — generic fields,
//! clock, keyboard, mouse and gamepad queue — and is owned exclusively by
//! the currently-active lifecycle state. Each sub-context is mutated by at
//! most one component category: the normalizers own the key and button
//! state, the frame driver owns the clock, the per-tick snapshots and the
//! `continuing` flag. User callbacks receive the context mutably but may
//! only change the quit-request flag and read the rest; that discipline is
//! the `callback_frame` relation every callback's contract promises.

use vstd::prelude::*;
use crate::gamepad::GamepadContext;
use crate::keyboard::KeyboardContext;
use crate::mouse::MouseContext;
use crate::scalar::sat_inc;

verus! {

/// Generic control-flow fields.
pub struct ContextFields {
    /// While true, the run loop keeps going; cleared only by the quit
    /// protocol and the fatal-error exit path.
    pub continuing: bool,
    /// Set to ask for the quit protocol at the next tick boundary.
    pub quit_requested: bool,
}

/// The clock sub-context: counts scheduling ticks.
pub struct TimeContext {
    ticks: u64,
}

impl TimeContext {
    /// How many ticks have elapsed.
    pub closed spec fn spec_ticks(&self) -> int {
        self.ticks as int
    }

    /// A fresh clock.
    pub fn new() -> (tc: TimeContext)
        ensures
            tc.spec_ticks() == 0,
    {
        TimeContext { ticks: 0 }
    }

    /// Advances the clock by one tick, staying put at the top of the
    /// range.
    pub fn tick(&mut self)
        ensures
            final(self).spec_ticks() == sat_inc(old(self).spec_ticks()),
    {
        if self.ticks < u64::MAX {
            self.ticks = self.ticks + 1;
        }
    }

    /// How many ticks have elapsed.
    pub fn ticks(&self) -> (r: u64)
        ensures
            r as int == self.spec_ticks(),
    {
        self.ticks
    }
}

/// The aggregate context handed to every callback.
pub struct Context {
    pub fields: ContextFields,
    pub time: TimeContext,
    pub keyboard: KeyboardContext,
    pub mouse: MouseContext,
    pub gamepad: GamepadContext,
}

impl Context {
    /// The input normalizers' sets hold no duplicates.
    pub open spec fn wf(&self) -> bool {
        &&& self.keyboard.wf()
        &&& self.mouse.wf()
    }

    /// A fresh context: running, no quit requested, nothing pressed.
    pub fn new() -> (ctx: Context)
        ensures
            ctx.wf(),
            ctx.fields.continuing,
            !ctx.fields.quit_requested,
            ctx.time.spec_ticks() == 0,
            ctx.keyboard.logical_pressed().len() == 0,
            ctx.keyboard.previous_pressed().len() == 0,
            ctx.mouse.spec_delta() == (0int, 0int),
            ctx.gamepad.spec_queue().len() == 0,
    {
        Context {
            fields: ContextFields { continuing: true, quit_requested: false },
            time: TimeContext::new(),
            keyboard: KeyboardContext::new(),
            mouse: MouseContext::new(),
            gamepad: GamepadContext::new(),
        }
    }

    /// Asks for the quit protocol to run at the next tick boundary.
    pub fn request_quit(&mut self)
        ensures
            final(self).fields.quit_requested,
            final(self).fields.continuing == old(self).fields.continuing,
            final(self).time == old(self).time,
            final(self).keyboard == old(self).keyboard,
            final(self).mouse == old(self).mouse,
            final(self).gamepad == old(self).gamepad,
    {
        self.fields.quit_requested = true;
    }
}

/// What every user callback promises of the context: it may request a
/// quit, but leaves the `continuing` flag, the clock, the normalizer state
/// and the gamepad queue to the components that own them.
pub open spec fn callback_frame(pre: Context, post: Context) -> bool {
    &&& post.fields.continuing == pre.fields.continuing
    &&& post.time == pre.time
    &&& post.keyboard == pre.keyboard
    &&& post.mouse == pre.mouse
    &&& post.gamepad == pre.gamepad
}

/// What the touch callback promises: as `callback_frame`, except that the
/// mouse sub-context may change — the default touch handler maps touch
/// input onto the mouse model — yet stays well-formed.
pub open spec fn touch_callback_frame(pre: Context, post: Context) -> bool {
    &&& post.fields.continuing == pre.fields.continuing
    &&& post.time == pre.time
    &&& post.keyboard == pre.keyboard
    &&& post.gamepad == pre.gamepad
    &&& pre.mouse.wf() ==> post.mouse.wf()
}

} // verus!
