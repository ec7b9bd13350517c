//! The lifecycle state machine, the error policy, and the frame driver.
//!
//! The application is always in exactly one of three states — starting,
//! running, suspended — each carrying the same payload: the context, the
//! user handler, and the rendering collaborator. Platform resume and
//! suspend notifications drive the transitions; window and device events
//! are forwarded to the user handler only while running; and once per
//! scheduling tick the frame driver drains the gamepad queue, invokes
//! update, brackets draw between frame-begin and frame-end, and commits
//! the per-tick input snapshots.
//!
//! The core cannot stop a host event loop itself, so every entry point
//! returns a [`Report`] whose `exit` flag tells the host to stop and whose
//! entries record, in order, every callback invoked with its outcome.

use vstd::prelude::*;
use core::marker::PhantomData;
use crate::context::{callback_frame, Context};
use crate::event::{
    process_device_event,
    process_window_event,
    DeviceEvent,
    ErrorOrigin,
    Event,
    EventHandler,
    window_process_rel,
};
use crate::gamepad::GamepadEventKind;
use crate::graphics::Renderer;
use crate::keyboard::{KeyInput, KeyboardContext};
use crate::mouse::MouseContext;
use crate::report::{
    fatal_entry,
    gamepad_call,
    plain_outcome,
    quit_outcome,
    Call,
    Outcome,
    Report,
    TraceEntry,
};
use crate::scalar::{sat_add, sat_inc, sat_sub};

verus! {

/// Marker for the starting state: no window or rendering surface yet.
#[derive(Debug)]
pub struct Starting;

/// Marker for the running state: events are dispatched and ticks drive
/// update and draw.
#[derive(Debug)]
pub struct Running;

/// Marker for the suspended state: the rendering surface is invalidated;
/// nothing is dispatched.
#[derive(Debug)]
pub struct Suspended;

/// Marker trait for the lifecycle typestates.
pub trait AppState {

}

impl AppState for Starting {

}

impl AppState for Running {

}

impl AppState for Suspended {

}

/// The lifecycle phase, as an observable value.
#[derive(Clone, Copy, Debug, PartialEq, Eq, Structural)]
pub enum LifecyclePhase {
    Starting,
    Running,
    Suspended,
}

/// One lifecycle state's payload: the context, the user handler, and the
/// rendering collaborator. The typestate parameter says which state the
/// payload is in; transitions consume one state and produce another,
/// moving the payload — never duplicating it.
pub struct AppHandler<S, E, R, RE, St> {
    pub ctx: Context,
    pub state: S,
    pub renderer: R,
    pub marker: PhantomData<(E, RE, St)>,
}

/// What the tick-boundary quit check does. When no quit is pending it
/// touches nothing and asks for exit exactly when the loop is no longer
/// continuing. When a quit is pending it invokes the quit callback once:
/// declining clears `continuing`; cancelling keeps running (the request
/// flag is cleared either way, so a cancelled quit does not re-trigger
/// every tick); an error goes through the error policy and exits when
/// fatal.
pub open spec fn new_events_rel(
    pre: Context,
    post: Context,
    entries: Seq<TraceEntry>,
    exit: bool,
) -> bool {
    &&& post.time == pre.time
    &&& post.keyboard == pre.keyboard
    &&& post.mouse == pre.mouse
    &&& post.gamepad == pre.gamepad
    &&& if !pre.fields.quit_requested {
        &&& post == pre
        &&& entries.len() == 0
        &&& exit == !pre.fields.continuing
    } else {
        &&& entries.len() == 1
        &&& entries[0].call == Call::QuitEvent
        &&& quit_outcome(entries[0].outcome)
        &&& (entries[0].outcome == Outcome::QuitDeclined ==> post.fields.continuing == false
            && !post.fields.quit_requested && exit)
        &&& (entries[0].outcome == Outcome::QuitCancelled ==> post.fields.continuing
            == pre.fields.continuing && !post.fields.quit_requested && exit
            == !pre.fields.continuing)
        &&& (entries[0].outcome matches Outcome::Failed { fatal } ==> post.fields.continuing
            == pre.fields.continuing && exit == (fatal || !pre.fields.continuing))
    }
}

/// A trace of exactly one ordinary callback, whose failure decides the
/// exit flag.
pub open spec fn plain_entry(entries: Seq<TraceEntry>, call: Call, exit: bool) -> bool {
    &&& entries.len() == 1
    &&& entries[0].call == call
    &&& plain_outcome(entries[0].outcome)
    &&& exit == fatal_entry(entries[0])
}

/// What dispatching one window event while running does: the normalizers
/// are updated as by [`window_process_rel`], then the matching user
/// callback — at most one — is invoked with normalized arguments and its
/// result goes through the error policy. A close request runs the quit
/// protocol: the request flag is cleared whatever the quit callback
/// decided, and a declined quit clears `continuing` and stops the loop at
/// once, with nothing further dispatched this tick. The mapping is total:
/// an unmatched event updates nothing and invokes nothing.
pub open spec fn window_dispatch_rel(
    pre: Context,
    post: Context,
    event: Event,
    entries: Seq<TraceEntry>,
    exit: bool,
) -> bool {
    &&& post.time == pre.time
    &&& post.gamepad == pre.gamepad
    &&& match event {
        Event::Resized { width, height } => {
            &&& entries.len() == 2
            &&& entries[0] == (TraceEntry {
                call: Call::RendererResize { width, height },
                outcome: Outcome::Succeeded,
            })
            &&& entries[1].call == (Call::ResizeEvent { width, height })
            &&& plain_outcome(entries[1].outcome)
            &&& exit == fatal_entry(entries[1])
            &&& post.keyboard == pre.keyboard
            &&& post.mouse == pre.mouse
            &&& post.fields.continuing == pre.fields.continuing
        },
        Event::CloseRequested => {
            &&& entries.len() == 1
            &&& entries[0].call == Call::QuitEvent
            &&& quit_outcome(entries[0].outcome)
            &&& (entries[0].outcome == Outcome::QuitDeclined ==> post.fields.continuing == false
                && !post.fields.quit_requested && exit)
            &&& (entries[0].outcome == Outcome::QuitCancelled ==> post.fields.continuing
                == pre.fields.continuing && !post.fields.quit_requested && !exit)
            &&& (entries[0].outcome matches Outcome::Failed { fatal } ==> post.fields.continuing
                == pre.fields.continuing && exit == fatal)
            &&& post.keyboard == pre.keyboard
            &&& post.mouse == pre.mouse
        },
        Event::Focused { gained } => {
            &&& plain_entry(entries, Call::FocusEvent { gained }, exit)
            &&& post.keyboard == pre.keyboard
            &&& post.mouse == pre.mouse
            &&& post.fields.continuing == pre.fields.continuing
        },
        Event::ModifiersChanged { .. } => {
            &&& window_process_rel(pre, post, event)
            &&& entries.len() == 0
            &&& !exit
        },
        Event::KeyboardInput { logical, physical, pressed } => {
            &&& KeyboardContext::key_event_rel(pre.keyboard, post.keyboard, logical, physical, pressed)
            &&& post.mouse == pre.mouse
            &&& post.fields.continuing == pre.fields.continuing
            &&& plain_entry(
                entries,
                if pressed {
                    Call::KeyDownEvent {
                        input: KeyInput {
                            logical,
                            physical,
                            mods: pre.keyboard.spec_modifiers(),
                        },
                        repeated: pre.keyboard.logical_pressed().contains(logical),
                    }
                } else {
                    Call::KeyUpEvent {
                        input: KeyInput {
                            logical,
                            physical,
                            mods: pre.keyboard.spec_modifiers(),
                        },
                    }
                },
                exit,
            )
        },
        Event::MouseWheel { x, y } => {
            &&& plain_entry(entries, Call::MouseWheelEvent { x, y }, exit)
            &&& post.keyboard == pre.keyboard
            &&& post.mouse == pre.mouse
            &&& post.fields.continuing == pre.fields.continuing
        },
        Event::MouseInput { button, pressed } => {
            &&& MouseContext::button_rel(pre.mouse, post.mouse, button, pressed)
            &&& post.keyboard == pre.keyboard
            &&& post.fields.continuing == pre.fields.continuing
            &&& plain_entry(
                entries,
                if pressed {
                    Call::MouseButtonDownEvent {
                        button,
                        x: pre.mouse.spec_position().0 as i64,
                        y: pre.mouse.spec_position().1 as i64,
                    }
                } else {
                    Call::MouseButtonUpEvent {
                        button,
                        x: pre.mouse.spec_position().0 as i64,
                        y: pre.mouse.spec_position().1 as i64,
                    }
                },
                exit,
            )
        },
        Event::CursorMoved { x, y } => {
            &&& MouseContext::move_rel(pre.mouse, post.mouse, x, y)
            &&& post.keyboard == pre.keyboard
            &&& post.fields.continuing == pre.fields.continuing
            &&& plain_entry(
                entries,
                Call::MouseMotionEvent {
                    x,
                    y,
                    dx: sat_add(
                        pre.mouse.spec_delta().0,
                        sat_sub(x as int, pre.mouse.spec_position().0),
                    ) as i64,
                    dy: sat_add(
                        pre.mouse.spec_delta().1,
                        sat_sub(y as int, pre.mouse.spec_position().1),
                    ) as i64,
                },
                exit,
            )
        },
        Event::Touch { phase, x, y } => {
            &&& plain_entry(entries, Call::TouchEvent { phase, x, y }, exit)
            &&& post.keyboard == pre.keyboard
            &&& post.fields.continuing == pre.fields.continuing
            &&& post.mouse.wf()
        },
        Event::CursorEntered => {
            &&& plain_entry(entries, Call::MouseEnterOrLeave { entered: true }, exit)
            &&& post.keyboard == pre.keyboard
            &&& post.mouse == pre.mouse
            &&& post.fields.continuing == pre.fields.continuing
        },
        Event::CursorLeft => {
            &&& plain_entry(entries, Call::MouseEnterOrLeave { entered: false }, exit)
            &&& post.keyboard == pre.keyboard
            &&& post.mouse == pre.mouse
            &&& post.fields.continuing == pre.fields.continuing
        },
        Event::Other => {
            &&& post == pre
            &&& entries.len() == 0
            &&& !exit
        },
    }
}

/// What dispatching one device event while running does: only relative
/// mouse motion is forwarded, per event and with the raw device deltas.
pub open spec fn device_dispatch_rel(
    pre: Context,
    post: Context,
    event: DeviceEvent,
    entries: Seq<TraceEntry>,
    exit: bool,
) -> bool {
    &&& post.time == pre.time
    &&& post.gamepad == pre.gamepad
    &&& post.keyboard == pre.keyboard
    &&& post.fields.continuing == pre.fields.continuing
    &&& match event {
        DeviceEvent::MouseMotion { dx, dy } => {
            &&& MouseContext::motion_rel(pre.mouse, post.mouse, dx, dy)
            &&& plain_entry(entries, Call::RawMouseMotionEvent { dx, dy }, exit)
        },
        DeviceEvent::Other => {
            &&& post == pre
            &&& entries.len() == 0
            &&& !exit
        },
    }
}

/// The outcome shape of a renderer frame step: success, or a failure that
/// is always fatal.
pub open spec fn frame_outcome(o: Outcome) -> bool {
    o == Outcome::Succeeded || o == (Outcome::Failed { fatal: true })
}

/// The update/draw phase of a tick's trace: update first — a fatal update
/// ends the tick — then frame-begin, draw, and, unless draw failed
/// fatally, frame-end. A frame-begin or frame-end failure asks for exit
/// but the tick still runs on; a fatal draw is the one outcome that skips
/// frame-end.
pub open spec fn phase_rel(rest: Seq<TraceEntry>) -> bool {
    &&& rest.len() >= 1
    &&& rest[0].call == Call::Update
    &&& plain_outcome(rest[0].outcome)
    &&& if fatal_entry(rest[0]) {
        rest.len() == 1
    } else {
        &&& rest.len() >= 3
        &&& rest[1].call == Call::BeginFrame
        &&& frame_outcome(rest[1].outcome)
        &&& rest[2].call == Call::Draw
        &&& plain_outcome(rest[2].outcome)
        &&& if fatal_entry(rest[2]) {
            rest.len() == 3
        } else {
            &&& rest.len() == 4
            &&& rest[3].call == Call::EndFrame
            &&& frame_outcome(rest[3].outcome)
        }
    }
}

/// The structure of one tick's trace, with `k` the number of queued
/// gamepad events drained: the first `k` entries translate the queue's
/// first `k` events in order, only the last drained entry may be fatal,
/// and either that fatal entry aborted the drain and the tick, or the
/// whole queue was drained and the update/draw phases follow.
pub open spec fn tick_rel_at(
    pre: Context,
    post: Context,
    entries: Seq<TraceEntry>,
    k: int,
) -> bool {
    let q = pre.gamepad.spec_queue();
    &&& 0 <= k <= q.len()
    &&& k <= entries.len()
    &&& (forall|i: int|
        0 <= i < k ==> (#[trigger] entries[i]).call == gamepad_call(q[i]) && plain_outcome(
            entries[i].outcome,
        ))
    &&& (forall|i: int| 0 <= i < k - 1 ==> !fatal_entry(#[trigger] entries[i]))
    &&& post.gamepad.spec_queue() == q.skip(k)
    &&& if k > 0 && fatal_entry(entries[k - 1]) {
        entries.len() == k
    } else {
        k == q.len() && phase_rel(entries.skip(k))
    }
}

/// What one frame-driver tick does. The clock advances first. The pending
/// gamepad events are drained in arrival order — a fatal callback aborts
/// the remaining drain and the tick. Then update, frame-begin, draw and
/// frame-end run in that fixed order. When the tick reaches frame-end,
/// the per-tick commits happen exactly once, strictly after draw: the
/// cumulative mouse delta returns to exactly zero and the pressed sets
/// are saved as the previous-tick snapshots. The report asks for exit
/// exactly when some recorded call failed fatally.
pub open spec fn tick_rel(pre: Context, post: Context, entries: Seq<TraceEntry>, exit: bool) -> bool {
    &&& post.time.spec_ticks() == sat_inc(pre.time.spec_ticks())
    &&& post.fields.continuing == pre.fields.continuing
    &&& (exit <==> exists|i: int| 0 <= i < entries.len() && fatal_entry(#[trigger] entries[i]))
    &&& (exists|k: int| #[trigger] tick_rel_at(pre, post, entries, k))
    &&& if entries.len() > 0 && entries[entries.len() - 1].call == Call::EndFrame {
        &&& post.mouse.spec_delta() == (0int, 0int)
        &&& post.mouse.spec_position() == pre.mouse.spec_position()
        &&& post.mouse.buttons_pressed() == pre.mouse.buttons_pressed()
        &&& post.mouse.previous_pressed() == pre.mouse.buttons_pressed()
        &&& post.keyboard.logical_pressed() == pre.keyboard.logical_pressed()
        &&& post.keyboard.physical_pressed() == pre.keyboard.physical_pressed()
        &&& post.keyboard.previous_pressed() == pre.keyboard.logical_pressed()
        &&& post.keyboard.spec_modifiers() == pre.keyboard.spec_modifiers()
    } else {
        &&& post.mouse == pre.mouse
        &&& post.keyboard == pre.keyboard
    }
}

/// Law: quitting is a user-overridable decision. At a tick boundary with
/// a quit pending and the loop still continuing, a cancelled quit
/// (`Ok(true)` from the quit callback) leaves `continuing` true and does
/// not ask for exit, and the cleared request flag keeps a cancelled quit
/// from re-triggering every tick; a declined quit (`Ok(false)`) clears
/// `continuing` and asks for exit.
pub proof fn lemma_quit_decision(pre: Context, post: Context, entries: Seq<TraceEntry>, exit: bool)
    requires
        new_events_rel(pre, post, entries, exit),
        pre.fields.quit_requested,
        pre.fields.continuing,
    ensures
        entries.len() == 1 && entries[0].call == Call::QuitEvent,
        entries[0].outcome == Outcome::QuitCancelled ==> post.fields.continuing
            && !post.fields.quit_requested && !exit,
        entries[0].outcome == Outcome::QuitDeclined ==> !post.fields.continuing && exit,
{
}

/// Law: a tick that ends without a fatal error always drove `update` and
/// `draw`, in that order — so after a cancelled quit the machine keeps
/// running full ticks.
pub proof fn lemma_tick_drives_update_and_draw(
    pre: Context,
    post: Context,
    entries: Seq<TraceEntry>,
    exit: bool,
)
    requires
        tick_rel(pre, post, entries, exit),
        !exit,
    ensures
        exists|i: int| 0 <= i < entries.len() && (#[trigger] entries[i]).call == Call::Update,
        exists|i: int| 0 <= i < entries.len() && (#[trigger] entries[i]).call == Call::Draw,
{
    let k = choose|k: int| #[trigger] tick_rel_at(pre, post, entries, k);
    let rest = entries.skip(k);
    assert(!(k > 0 && fatal_entry(entries[k - 1])));
    assert(rest[0] == entries[k]);
    assert(!fatal_entry(entries[k]));
    assert(rest[2] == entries[k + 2]);
    assert(entries[k].call == Call::Update);
    assert(entries[k + 2].call == Call::Draw);
}

/// Law: a fatal draw error skips frame-end. When a tick's trace holds a
/// draw call that failed fatally, frame-end was never invoked that tick —
/// no half-committed frame — and the report tells the loop to exit.
pub proof fn lemma_fatal_draw_skips_end_frame(
    pre: Context,
    post: Context,
    entries: Seq<TraceEntry>,
    exit: bool,
    i: int,
)
    requires
        tick_rel(pre, post, entries, exit),
        0 <= i < entries.len(),
        entries[i].call == Call::Draw,
        fatal_entry(entries[i]),
    ensures
        exit,
        forall|j: int| 0 <= j < entries.len() ==> (#[trigger] entries[j]).call != Call::EndFrame,
{
    let k = choose|k: int| #[trigger] tick_rel_at(pre, post, entries, k);
    let q = pre.gamepad.spec_queue();
    assert(i >= k) by {
        if i < k {
            assert(entries[i].call == gamepad_call(q[i]));
        }
    }
    let rest = entries.skip(k);
    assert(entries.len() == k + rest.len());
    assert forall|m: int| 0 <= m < rest.len() implies #[trigger] rest[m] == entries[k + m] by {}
    assert(rest[i - k] == entries[i]);
    assert(i - k == 2 && rest.len() == 3);
    assert forall|j: int| 0 <= j < entries.len() implies (#[trigger] entries[j]).call
        != Call::EndFrame by {
        if j < k {
            assert(entries[j].call == gamepad_call(q[j]));
        } else {
            assert(entries[j] == rest[j - k]);
        }
    }
}

impl<S: EventHandler<E>, E, R, RE, St: AppState> AppHandler<S, E, R, RE, St> {
    /// The single error-policy decision point. A success changes nothing.
    /// An error is handed to the user handler's `on_error` with its origin
    /// tag; the returned verdict — fatal or not — is the only way a
    /// callback error can stop the run loop.
    fn catch_error<T>(&mut self, event_result: Result<T, E>, origin: ErrorOrigin) -> (r: (
        bool,
        Outcome,
    ))
        requires
            old(self).ctx.wf(),
        ensures
            final(self).ctx.wf(),
            callback_frame(old(self).ctx, final(self).ctx),
            final(self).renderer == old(self).renderer,
            event_result is Ok ==> r == (false, Outcome::Succeeded) && *final(self) == *old(self),
            event_result is Err ==> r.1 == (Outcome::Failed { fatal: r.0 }),
    {
        match event_result {
            Ok(_) => (false, Outcome::Succeeded),
            Err(e) => {
                let fatal = self.state.on_error(&mut self.ctx, origin, e);
                (fatal, Outcome::Failed { fatal })
            },
        }
    }

    /// Moves the payload, unchanged, into another lifecycle state. Exactly
    /// one context and one user handler exist system-wide at all times.
    pub fn transition<N: AppState>(self) -> (r: AppHandler<S, E, R, RE, N>)
        ensures
            r.ctx == self.ctx,
            r.state == self.state,
            r.renderer == self.renderer,
    {
        AppHandler { ctx: self.ctx, state: self.state, renderer: self.renderer, marker: PhantomData }
    }

    /// The tick-boundary check, run in every state: drives the quit
    /// protocol when a quit is pending, and asks for exit when the loop is
    /// no longer continuing.
    pub fn new_events(&mut self) -> (r: Report)
        requires
            old(self).ctx.wf(),
        ensures
            final(self).ctx.wf(),
            final(self).renderer == old(self).renderer,
            new_events_rel(old(self).ctx, final(self).ctx, r.entries@, r.exit),
    {
        let mut entries: Vec<TraceEntry> = Vec::new();
        let mut exit = false;
        if self.ctx.fields.quit_requested {
            let res = self.state.quit_event(&mut self.ctx);
            self.ctx.fields.quit_requested = false;
            match res {
                Ok(false) => {
                    self.ctx.fields.continuing = false;
                    entries.push(
                        TraceEntry { call: Call::QuitEvent, outcome: Outcome::QuitDeclined },
                    );
                },
                Ok(true) => {
                    entries.push(
                        TraceEntry { call: Call::QuitEvent, outcome: Outcome::QuitCancelled },
                    );
                },
                Err(e) => {
                    let verdict = self.catch_error::<bool>(Err(e), ErrorOrigin::QuitEvent);
                    entries.push(TraceEntry { call: Call::QuitEvent, outcome: verdict.1 });
                    if verdict.0 {
                        exit = true;
                    }
                },
            }
        }
        if !self.ctx.fields.continuing {
            exit = true;
        }
        Report { entries, exit }
    }
}

impl<S: EventHandler<E>, E, R: Renderer<RE>, RE> AppHandler<S, E, R, RE, Starting> {
    /// Starting, on a platform resume: invokes the user handler's `load`
    /// exactly once, routes any error through the error policy, and
    /// becomes running unconditionally — even on a fatal load error, in
    /// which case the report tells the loop to exit.
    pub fn resumed(self) -> (r: (AppHandler<S, E, R, RE, Running>, Report))
        requires
            self.ctx.wf(),
        ensures
            r.0.ctx.wf(),
            callback_frame(self.ctx, r.0.ctx),
            r.0.renderer == self.renderer,
            r.1.entries@.len() == 1,
            r.1.entries@[0].call == Call::Load,
            plain_outcome(r.1.entries@[0].outcome),
            r.1.exit == fatal_entry(r.1.entries@[0]),
    {
        let mut this = self;
        let res = this.state.load(&mut this.ctx);
        let verdict = this.catch_error(res, ErrorOrigin::Load);
        let mut entries: Vec<TraceEntry> = Vec::new();
        entries.push(TraceEntry { call: Call::Load, outcome: verdict.1 });
        (this.transition(), Report { entries, exit: verdict.0 })
    }
}

impl<S: EventHandler<E>, E, R: Renderer<RE>, RE> AppHandler<S, E, R, RE, Suspended> {
    /// Suspended, on a platform resume: no user callback — recreating the
    /// render surface is the rendering collaborator's concern — the
    /// payload moves untouched into the running state.
    pub fn resumed(self) -> (r: AppHandler<S, E, R, RE, Running>)
        ensures
            r.ctx == self.ctx,
            r.state == self.state,
            r.renderer == self.renderer,
    {
        self.transition()
    }
}

impl<S: EventHandler<E>, E, R: Renderer<RE>, RE> AppHandler<S, E, R, RE, Running> {
    /// Running, on a platform suspend: no user callback — releasing the
    /// render surface is the rendering collaborator's concern — the
    /// payload moves untouched into the suspended state.
    pub fn suspended(self) -> (r: AppHandler<S, E, R, RE, Suspended>)
        ensures
            r.ctx == self.ctx,
            r.state == self.state,
            r.renderer == self.renderer,
    {
        self.transition()
    }

    /// Dispatches one window event: feeds the normalizers, invokes the
    /// matching user callback with normalized arguments, and routes its
    /// result through the error policy.
    pub fn window_event(&mut self, event: &Event) -> (r: Report)
        requires
            old(self).ctx.wf(),
        ensures
            final(self).ctx.wf(),
            window_dispatch_rel(old(self).ctx, final(self).ctx, *event, r.entries@, r.exit),
    {
        process_window_event(&mut self.ctx, &mut self.renderer, event);
        let mut entries: Vec<TraceEntry> = Vec::new();
        let mut exit = false;
        match *event {
            Event::Resized { width, height } => {
                entries.push(
                    TraceEntry {
                        call: Call::RendererResize { width, height },
                        outcome: Outcome::Succeeded,
                    },
                );
                let res = self.state.resize_event(&mut self.ctx, width, height);
                let verdict = self.catch_error(res, ErrorOrigin::ResizeEvent);
                entries.push(TraceEntry { call: Call::ResizeEvent { width, height }, outcome: verdict.1 });
                exit = verdict.0;
            },
            Event::CloseRequested => {
                let res = self.state.quit_event(&mut self.ctx);
                match res {
                    Ok(false) => {
                        self.ctx.fields.quit_requested = false;
                        self.ctx.fields.continuing = false;
                        exit = true;
                        entries.push(
                            TraceEntry { call: Call::QuitEvent, outcome: Outcome::QuitDeclined },
                        );
                    },
                    Ok(true) => {
                        self.ctx.fields.quit_requested = false;
                        entries.push(
                            TraceEntry { call: Call::QuitEvent, outcome: Outcome::QuitCancelled },
                        );
                    },
                    Err(e) => {
                        let verdict = self.catch_error::<bool>(Err(e), ErrorOrigin::QuitEvent);
                        entries.push(TraceEntry { call: Call::QuitEvent, outcome: verdict.1 });
                        exit = verdict.0;
                    },
                }
            },
            Event::Focused { gained } => {
                let res = self.state.focus_event(&mut self.ctx, gained);
                let verdict = self.catch_error(res, ErrorOrigin::FocusEvent);
                entries.push(TraceEntry { call: Call::FocusEvent { gained }, outcome: verdict.1 });
                exit = verdict.0;
            },
            Event::ModifiersChanged { .. } => {},
            Event::KeyboardInput { logical, physical, pressed } => {
                let mods = self.ctx.keyboard.active_modifiers();
                let repeat = self.ctx.keyboard.is_key_repeated();
                let input = KeyInput { logical, physical, mods };
                if pressed {
                    let res = self.state.key_down_event(&mut self.ctx, input, repeat);
                    let verdict = self.catch_error(res, ErrorOrigin::KeyDownEvent);
                    entries.push(
                        TraceEntry { call: Call::KeyDownEvent { input, repeated: repeat }, outcome: verdict.1 },
                    );
                    exit = verdict.0;
                } else {
                    let res = self.state.key_up_event(&mut self.ctx, input);
                    let verdict = self.catch_error(res, ErrorOrigin::KeyUpEvent);
                    entries.push(
                        TraceEntry { call: Call::KeyUpEvent { input }, outcome: verdict.1 },
                    );
                    exit = verdict.0;
                }
            },
            Event::MouseWheel { x, y } => {
                let res = self.state.mouse_wheel_event(&mut self.ctx, x, y);
                let verdict = self.catch_error(res, ErrorOrigin::MouseWheelEvent);
                entries.push(
                    TraceEntry { call: Call::MouseWheelEvent { x, y }, outcome: verdict.1 },
                );
                exit = verdict.0;
            },
            Event::MouseInput { button, pressed } => {
                let position = self.ctx.mouse.position();
                if pressed {
                    let res = self.state.mouse_button_down_event(
                        &mut self.ctx,
                        button,
                        position.x,
                        position.y,
                    );
                    let verdict = self.catch_error(res, ErrorOrigin::MouseButtonDownEvent);
                    entries.push(
                        TraceEntry {
                            call: Call::MouseButtonDownEvent { button, x: position.x, y: position.y },
                            outcome: verdict.1,
                        },
                    );
                    exit = verdict.0;
                } else {
                    let res = self.state.mouse_button_up_event(
                        &mut self.ctx,
                        button,
                        position.x,
                        position.y,
                    );
                    let verdict = self.catch_error(res, ErrorOrigin::MouseButtonUpEvent);
                    entries.push(
                        TraceEntry {
                            call: Call::MouseButtonUpEvent { button, x: position.x, y: position.y },
                            outcome: verdict.1,
                        },
                    );
                    exit = verdict.0;
                }
            },
            Event::CursorMoved { .. } => {
                let position = self.ctx.mouse.position();
                let delta = self.ctx.mouse.last_delta();
                let res = self.state.mouse_motion_event(
                    &mut self.ctx,
                    position.x,
                    position.y,
                    delta.x,
                    delta.y,
                );
                let verdict = self.catch_error(res, ErrorOrigin::MouseMotionEvent);
                entries.push(
                    TraceEntry {
                        call: Call::MouseMotionEvent {
                            x: position.x,
                            y: position.y,
                            dx: delta.x,
                            dy: delta.y,
                        },
                        outcome: verdict.1,
                    },
                );
                exit = verdict.0;
            },
            Event::Touch { phase, x, y } => {
                let res = self.state.touch_event(&mut self.ctx, phase, x, y);
                let verdict = self.catch_error(res, ErrorOrigin::TouchEvent);
                entries.push(
                    TraceEntry { call: Call::TouchEvent { phase, x, y }, outcome: verdict.1 },
                );
                exit = verdict.0;
            },
            Event::CursorEntered => {
                let res = self.state.mouse_enter_or_leave(&mut self.ctx, true);
                let verdict = self.catch_error(res, ErrorOrigin::MouseEnterOrLeave);
                entries.push(
                    TraceEntry { call: Call::MouseEnterOrLeave { entered: true }, outcome: verdict.1 },
                );
                exit = verdict.0;
            },
            Event::CursorLeft => {
                let res = self.state.mouse_enter_or_leave(&mut self.ctx, false);
                let verdict = self.catch_error(res, ErrorOrigin::MouseEnterOrLeave);
                entries.push(
                    TraceEntry { call: Call::MouseEnterOrLeave { entered: false }, outcome: verdict.1 },
                );
                exit = verdict.0;
            },
            Event::Other => {},
        }
        Report { entries, exit }
    }

    /// Dispatches one device event: only relative mouse motion is
    /// forwarded, with the unfiltered per-event device deltas.
    pub fn device_event(&mut self, event: &DeviceEvent) -> (r: Report)
        requires
            old(self).ctx.wf(),
        ensures
            final(self).ctx.wf(),
            device_dispatch_rel(old(self).ctx, final(self).ctx, *event, r.entries@, r.exit),
    {
        process_device_event(&mut self.ctx, event);
        let mut entries: Vec<TraceEntry> = Vec::new();
        let mut exit = false;
        match *event {
            DeviceEvent::MouseMotion { dx, dy } => {
                let res = self.state.raw_mouse_motion_event(&mut self.ctx, dx, dy);
                let verdict = self.catch_error(res, ErrorOrigin::RawMouseMotionEvent);
                entries.push(
                    TraceEntry { call: Call::RawMouseMotionEvent { dx, dy }, outcome: verdict.1 },
                );
                exit = verdict.0;
            },
            DeviceEvent::Other => {},
        }
        Report { entries, exit }
    }

    /// One frame-driver tick: advances the clock, drains the gamepad
    /// queue, invokes update, brackets draw between the renderer's
    /// frame-begin and frame-end, and commits the per-tick snapshots —
    /// the mouse delta reset and the previous-tick pressed sets — exactly
    /// once, strictly after draw.
    pub fn about_to_wait(&mut self) -> (r: Report)
        requires
            old(self).ctx.wf(),
        ensures
            final(self).ctx.wf(),
            tick_rel(old(self).ctx, final(self).ctx, r.entries@, r.exit),
    {
        self.ctx.time.tick();
        let ghost q = self.ctx.gamepad.spec_queue();
        proof {
            assert(q == old(self).ctx.gamepad.spec_queue());
        }
        let mut entries: Vec<TraceEntry> = Vec::new();
        while self.ctx.gamepad.len() > 0
            invariant
                self.ctx.wf(),
                self.ctx.time.spec_ticks() == sat_inc(old(self).ctx.time.spec_ticks()),
                self.ctx.fields.continuing == old(self).ctx.fields.continuing,
                self.ctx.keyboard == old(self).ctx.keyboard,
                self.ctx.mouse == old(self).ctx.mouse,
                q == old(self).ctx.gamepad.spec_queue(),
                entries@.len() <= q.len(),
                self.ctx.gamepad.spec_queue() == q.skip(entries@.len() as int),
                forall|i: int|
                    0 <= i < entries@.len() ==> (#[trigger] entries@[i]).call == gamepad_call(q[i])
                        && plain_outcome(entries@[i].outcome) && !fatal_entry(entries@[i]),
            decreases q.len() - entries@.len(),
        {
            let ghost idx = entries@.len() as int;
            let next = self.ctx.gamepad.next_event();
            match next {
                None => {
                    proof {
                        assert(false);
                    }
                },
                Some(ev) => {
                    proof {
                        assert(q.skip(idx)[0] == q[idx]);
                        assert(q.skip(idx).skip(1) =~= q.skip(idx + 1));
                    }
                    let verdict: (bool, Outcome);
                    let call: Call;
                    match ev.kind {
                        GamepadEventKind::ButtonPressed(btn) => {
                            let res = self.state.gamepad_button_down_event(
                                &mut self.ctx,
                                btn,
                                ev.id,
                            );
                            verdict = self.catch_error(res, ErrorOrigin::GamepadButtonDownEvent);
                            call = Call::GamepadButtonDownEvent { btn, id: ev.id };
                        },
                        GamepadEventKind::ButtonReleased(btn) => {
                            let res = self.state.gamepad_button_up_event(&mut self.ctx, btn, ev.id);
                            verdict = self.catch_error(res, ErrorOrigin::GamepadButtonUpEvent);
                            call = Call::GamepadButtonUpEvent { btn, id: ev.id };
                        },
                        GamepadEventKind::AxisChanged(axis, value) => {
                            let res = self.state.gamepad_axis_event(
                                &mut self.ctx,
                                axis,
                                value,
                                ev.id,
                            );
                            verdict = self.catch_error(res, ErrorOrigin::GamepadAxisEvent);
                            call = Call::GamepadAxisEvent { axis, value, id: ev.id };
                        },
                    }
                    entries.push(TraceEntry { call, outcome: verdict.1 });
                    if verdict.0 {
                        proof {
                            let k = entries@.len() as int;
                            assert(tick_rel_at(old(self).ctx, self.ctx, entries@, k));
                            assert(fatal_entry(entries@[k - 1]));
                        }
                        return Report { entries, exit: true };
                    }
                },
            }
        }
        let ghost kd = entries@.len() as int;
        proof {
            assert(q.skip(kd).len() == 0);
            assert(kd == q.len());
        }
        let res = self.state.update(&mut self.ctx);
        let verdict = self.catch_error(res, ErrorOrigin::Update);
        entries.push(TraceEntry { call: Call::Update, outcome: verdict.1 });
        if verdict.0 {
            proof {
                assert(entries@.skip(kd) =~= seq![entries@[kd]]);
                assert(tick_rel_at(old(self).ctx, self.ctx, entries@, kd));
                assert(fatal_entry(entries@[kd]));
            }
            return Report { entries, exit: true };
        }
        let mut exit = false;
        match self.renderer.begin_frame() {
            Ok(_) => {
                entries.push(TraceEntry { call: Call::BeginFrame, outcome: Outcome::Succeeded });
            },
            Err(_) => {
                entries.push(
                    TraceEntry { call: Call::BeginFrame, outcome: Outcome::Failed { fatal: true } },
                );
                exit = true;
            },
        }
        let res = self.state.draw(&mut self.ctx);
        let verdict = self.catch_error(res, ErrorOrigin::Draw);
        entries.push(TraceEntry { call: Call::Draw, outcome: verdict.1 });
        if verdict.0 {
            proof {
                assert(entries@.skip(kd) =~= seq![entries@[kd], entries@[kd + 1], entries@[kd + 2]]);
                assert(tick_rel_at(old(self).ctx, self.ctx, entries@, kd));
                assert(fatal_entry(entries@[kd + 2]));
            }
            return Report { entries, exit: true };
        }
        match self.renderer.end_frame() {
            Ok(_) => {
                entries.push(TraceEntry { call: Call::EndFrame, outcome: Outcome::Succeeded });
            },
            Err(_) => {
                entries.push(
                    TraceEntry { call: Call::EndFrame, outcome: Outcome::Failed { fatal: true } },
                );
                exit = true;
            },
        }
        self.ctx.mouse.reset_delta();
        self.ctx.keyboard.save_keyboard_state();
        self.ctx.mouse.save_mouse_state();
        proof {
            assert(entries@.skip(kd) =~= seq![
                entries@[kd],
                entries@[kd + 1],
                entries@[kd + 2],
                entries@[kd + 3],
            ]);
            assert(tick_rel_at(old(self).ctx, self.ctx, entries@, kd));
            if exit {
                assert(fatal_entry(entries@[kd + 1]) || fatal_entry(entries@[kd + 3]));
            } else {
                assert forall|i: int| 0 <= i < entries@.len() implies !fatal_entry(
                    #[trigger] entries@[i],
                ) by {
                    if i > kd {
                        assert(entries@[i] == entries@.skip(kd)[i - kd]);
                    }
                }
            }
        }
        Report { entries, exit }
    }
}

/// The lifecycle state machine's outer shell: holds whichever
/// state-specific handler is current and forwards the host's
/// notifications to it. The slot is empty only for the instant of a
/// transition; every entry point finds and leaves it occupied, so from
/// the caller's perspective a transition is atomic.
pub struct GgezApplicationHandler<S, E, R, RE> {
    app: Option<Application<S, E, R, RE>>,
}

/// Holds the state-specific handler for whichever lifecycle state the
/// application is in.
enum Application<S, E, R, RE> {
    /// Application is starting up; no rendering surface yet.
    Starting(AppHandler<S, E, R, RE, Starting>),
    /// Application is running; events are dispatched and ticks run.
    Running(AppHandler<S, E, R, RE, Running>),
    /// Application is suspended; nothing is dispatched.
    Suspended(AppHandler<S, E, R, RE, Suspended>),
}

impl<S, E, R, RE> GgezApplicationHandler<S, E, R, RE> {
    /// Which lifecycle state the application is in.
    pub closed spec fn lifecycle(&self) -> LifecyclePhase {
        match self.app {
            Some(Application::Starting(_)) => LifecyclePhase::Starting,
            Some(Application::Running(_)) => LifecyclePhase::Running,
            Some(Application::Suspended(_)) => LifecyclePhase::Suspended,
            None => LifecyclePhase::Starting,
        }
    }

    /// The context carried by the current state's handler.
    pub closed spec fn spec_ctx(&self) -> Context {
        match self.app {
            Some(Application::Starting(h)) => h.ctx,
            Some(Application::Running(h)) => h.ctx,
            Some(Application::Suspended(h)) => h.ctx,
            None => vstd::pervasive::arbitrary(),
        }
    }

    /// The user handler carried by the current state's handler.
    pub closed spec fn spec_state(&self) -> S {
        match self.app {
            Some(Application::Starting(h)) => h.state,
            Some(Application::Running(h)) => h.state,
            Some(Application::Suspended(h)) => h.state,
            None => vstd::pervasive::arbitrary(),
        }
    }

    /// The rendering collaborator carried by the current state's handler.
    pub closed spec fn spec_renderer(&self) -> R {
        match self.app {
            Some(Application::Starting(h)) => h.renderer,
            Some(Application::Running(h)) => h.renderer,
            Some(Application::Suspended(h)) => h.renderer,
            None => vstd::pervasive::arbitrary(),
        }
    }

    /// The slot is occupied and the carried context is well-formed.
    pub closed spec fn wf(&self) -> bool {
        self.app is Some && self.spec_ctx().wf()
    }
}

impl<S: EventHandler<E>, E, R: Renderer<RE>, RE> GgezApplicationHandler<S, E, R, RE> {
    /// Wraps the context, the user handler and the rendering collaborator
    /// into a machine in the starting state, holding exactly the given
    /// values.
    pub fn new(ctx: Context, state: S, renderer: R) -> (r: GgezApplicationHandler<S, E, R, RE>)
        requires
            ctx.wf(),
        ensures
            r.wf(),
            r.lifecycle() == LifecyclePhase::Starting,
            r.spec_ctx() == ctx,
            r.spec_state() == state,
            r.spec_renderer() == renderer,
    {
        let app = Application::Starting(
            AppHandler { ctx, state, renderer, marker: PhantomData },
        );
        GgezApplicationHandler { app: Some(app) }
    }

    /// The current lifecycle phase.
    pub fn phase(&self) -> (r: LifecyclePhase)
        requires
            self.wf(),
        ensures
            r == self.lifecycle(),
    {
        match &self.app {
            Some(Application::Starting(_)) => LifecyclePhase::Starting,
            Some(Application::Running(_)) => LifecyclePhase::Running,
            Some(Application::Suspended(_)) => LifecyclePhase::Suspended,
            None => vstd::pervasive::unreached(),
        }
    }

    /// Reads the context.
    pub fn context(&self) -> (r: &Context)
        requires
            self.wf(),
        ensures
            *r == self.spec_ctx(),
    {
        match &self.app {
            Some(Application::Starting(h)) => &h.ctx,
            Some(Application::Running(h)) => &h.ctx,
            Some(Application::Suspended(h)) => &h.ctx,
            None => vstd::pervasive::unreached(),
        }
    }

    /// Borrows the context mutably — how the host feeds the gamepad queue
    /// and reads or writes the generic fields between dispatches.
    pub fn context_mut(&mut self) -> (r: &mut Context)
        requires
            old(self).wf(),
        ensures
            *r == old(self).spec_ctx(),
            final(self).spec_ctx() == *final(r),
            final(self).lifecycle() == old(self).lifecycle(),
            final(r).wf() ==> final(self).wf(),
    {
        match &mut self.app {
            Some(Application::Starting(h)) => &mut h.ctx,
            Some(Application::Running(h)) => &mut h.ctx,
            Some(Application::Suspended(h)) => &mut h.ctx,
            None => vstd::pervasive::unreached(),
        }
    }

    /// The tick-boundary check, run in every state: the quit protocol and
    /// the `continuing` test.
    pub fn new_events(&mut self) -> (r: Report)
        requires
            old(self).wf(),
        ensures
            final(self).wf(),
            final(self).lifecycle() == old(self).lifecycle(),
            new_events_rel(old(self).spec_ctx(), final(self).spec_ctx(), r.entries@, r.exit),
    {
        match &mut self.app {
            Some(Application::Starting(h)) => h.new_events(),
            Some(Application::Running(h)) => h.new_events(),
            Some(Application::Suspended(h)) => h.new_events(),
            None => vstd::pervasive::unreached(),
        }
    }

    /// A platform resume notification. From starting this invokes `load`
    /// exactly once and the machine becomes running — even on a fatal
    /// load error, though the report then asks for exit. From suspended
    /// the machine becomes running with nothing invoked. While already
    /// running it is a no-op: no duplicate `load`.
    pub fn resumed(&mut self) -> (r: Report)
        requires
            old(self).wf(),
        ensures
            final(self).wf(),
            old(self).lifecycle() == LifecyclePhase::Starting ==> {
                &&& final(self).lifecycle() == LifecyclePhase::Running
                &&& callback_frame(old(self).spec_ctx(), final(self).spec_ctx())
                &&& final(self).spec_renderer() == old(self).spec_renderer()
                &&& r.entries@.len() == 1
                &&& r.entries@[0].call == Call::Load
                &&& plain_outcome(r.entries@[0].outcome)
                &&& r.exit == fatal_entry(r.entries@[0])
            },
            old(self).lifecycle() == LifecyclePhase::Running ==> *final(self) == *old(self)
                && r.entries@.len() == 0 && !r.exit,
            old(self).lifecycle() == LifecyclePhase::Suspended ==> {
                &&& final(self).lifecycle() == LifecyclePhase::Running
                &&& final(self).spec_ctx() == old(self).spec_ctx()
                &&& final(self).spec_state() == old(self).spec_state()
                &&& final(self).spec_renderer() == old(self).spec_renderer()
                &&& r.entries@.len() == 0
                &&& !r.exit
            },
    {
        let taken = self.app.take();
        match taken {
            Some(Application::Starting(h)) => {
                let (next, report) = h.resumed();
                self.app = Some(Application::Running(next));
                report
            },
            Some(Application::Suspended(h)) => {
                let next = h.resumed();
                self.app = Some(Application::Running(next));
                Report { entries: Vec::new(), exit: false }
            },
            Some(Application::Running(h)) => {
                self.app = Some(Application::Running(h));
                Report { entries: Vec::new(), exit: false }
            },
            None => vstd::pervasive::unreached(),
        }
    }

    /// A platform suspend notification. From running the machine becomes
    /// suspended with nothing invoked — releasing the render surface is
    /// the rendering collaborator's concern; in any other state it is a
    /// no-op.
    pub fn suspended(&mut self)
        requires
            old(self).wf(),
        ensures
            final(self).wf(),
            old(self).lifecycle() == LifecyclePhase::Running ==> final(self).lifecycle()
                == LifecyclePhase::Suspended && final(self).spec_ctx() == old(self).spec_ctx()
                && final(self).spec_state() == old(self).spec_state() && final(self).spec_renderer()
                == old(self).spec_renderer(),
            old(self).lifecycle() != LifecyclePhase::Running ==> *final(self) == *old(self),
    {
        let taken = self.app.take();
        match taken {
            Some(Application::Running(h)) => {
                let next = h.suspended();
                self.app = Some(Application::Suspended(next));
            },
            Some(Application::Starting(h)) => {
                self.app = Some(Application::Starting(h));
            },
            Some(Application::Suspended(h)) => {
                self.app = Some(Application::Suspended(h));
            },
            None => vstd::pervasive::unreached(),
        }
    }

    /// Dispatches one window event. Events are forwarded to the user
    /// handler only while running; in any other state they are silently
    /// dropped.
    pub fn window_event(&mut self, event: &Event) -> (r: Report)
        requires
            old(self).wf(),
        ensures
            final(self).wf(),
            final(self).lifecycle() == old(self).lifecycle(),
            old(self).lifecycle() == LifecyclePhase::Running ==> window_dispatch_rel(
                old(self).spec_ctx(),
                final(self).spec_ctx(),
                *event,
                r.entries@,
                r.exit,
            ),
            old(self).lifecycle() != LifecyclePhase::Running ==> *final(self) == *old(self)
                && r.entries@.len() == 0 && !r.exit,
    {
        match &mut self.app {
            Some(Application::Running(h)) => h.window_event(event),
            _ => Report { entries: Vec::new(), exit: false },
        }
    }

    /// Dispatches one device event. Only while running; otherwise the
    /// event is silently dropped.
    pub fn device_event(&mut self, event: &DeviceEvent) -> (r: Report)
        requires
            old(self).wf(),
        ensures
            final(self).wf(),
            final(self).lifecycle() == old(self).lifecycle(),
            old(self).lifecycle() == LifecyclePhase::Running ==> device_dispatch_rel(
                old(self).spec_ctx(),
                final(self).spec_ctx(),
                *event,
                r.entries@,
                r.exit,
            ),
            old(self).lifecycle() != LifecyclePhase::Running ==> *final(self) == *old(self)
                && r.entries@.len() == 0 && !r.exit,
    {
        match &mut self.app {
            Some(Application::Running(h)) => h.device_event(event),
            _ => Report { entries: Vec::new(), exit: false },
        }
    }

    /// One frame-driver tick. Only while running; otherwise nothing runs.
    pub fn about_to_wait(&mut self) -> (r: Report)
        requires
            old(self).wf(),
        ensures
            final(self).wf(),
            final(self).lifecycle() == old(self).lifecycle(),
            old(self).lifecycle() == LifecyclePhase::Running ==> tick_rel(
                old(self).spec_ctx(),
                final(self).spec_ctx(),
                r.entries@,
                r.exit,
            ),
            old(self).lifecycle() != LifecyclePhase::Running ==> *final(self) == *old(self)
                && r.entries@.len() == 0 && !r.exit,
    {
        match &mut self.app {
            Some(Application::Running(h)) => h.about_to_wait(),
            _ => Report { entries: Vec::new(), exit: false },
        }
    }
}

} // verus!
