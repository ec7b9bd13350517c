//! Dispatch reports.
//!
//! The core cannot stop a host event loop itself; instead every dispatch
//! entry point returns a [`Report`]: the trace of the callbacks it invoked,
//! each with its observed outcome, and whether the run loop must stop.
//! Contracts on the dispatch functions pin the trace down exactly, so the
//! report doubles as the specification-level record of what happened.

use vstd::prelude::*;
use crate::gamepad::{Axis, Button, GamepadEvent, GamepadEventKind, GamepadId};
use crate::keyboard::KeyInput;
use crate::mouse::MouseButton;
use crate::event::TouchPhase;

verus! {

/// A callback invocation, with its normalized arguments.
#[derive(Clone, Copy, Debug, PartialEq, Eq, Structural)]
pub enum Call {
    Load,
    Update,
    Draw,
    /// The rendering collaborator's frame-begin step.
    BeginFrame,
    /// The rendering collaborator's frame-end step.
    EndFrame,
    /// The rendering collaborator's viewport resize.
    RendererResize { width: u32, height: u32 },
    ResizeEvent { width: u32, height: u32 },
    QuitEvent,
    FocusEvent { gained: bool },
    KeyDownEvent { input: KeyInput, repeated: bool },
    KeyUpEvent { input: KeyInput },
    MouseWheelEvent { x: i64, y: i64 },
    MouseButtonDownEvent { button: MouseButton, x: i64, y: i64 },
    MouseButtonUpEvent { button: MouseButton, x: i64, y: i64 },
    MouseMotionEvent { x: i64, y: i64, dx: i64, dy: i64 },
    RawMouseMotionEvent { dx: i64, dy: i64 },
    MouseEnterOrLeave { entered: bool },
    TouchEvent { phase: TouchPhase, x: i64, y: i64 },
    GamepadButtonDownEvent { btn: Button, id: GamepadId },
    GamepadButtonUpEvent { btn: Button, id: GamepadId },
    GamepadAxisEvent { axis: Axis, value: i32, id: GamepadId },
}

/// What a recorded call came to.
#[derive(Clone, Copy, Debug, PartialEq, Eq, Structural)]
pub enum Outcome {
    /// The callback returned without error.
    Succeeded,
    /// The quit callback cancelled the quit: keep running.
    QuitCancelled,
    /// The quit callback declined to cancel: the loop will stop.
    QuitDeclined,
    /// The callback returned an error; the error policy asked the user
    /// handler whether it was fatal.
    Failed { fatal: bool },
}

/// One invoked call together with its outcome.
#[derive(Clone, Copy, Debug, PartialEq, Eq, Structural)]
pub struct TraceEntry {
    pub call: Call,
    pub outcome: Outcome,
}

/// What one dispatch entry point did: the calls it made, in order, and
/// whether the run loop must stop.
#[derive(Debug)]
pub struct Report {
    pub entries: Vec<TraceEntry>,
    pub exit: bool,
}

/// Whether the entry's outcome stops the run loop.
pub open spec fn fatal_entry(t: TraceEntry) -> bool {
    t.outcome matches Outcome::Failed { fatal: true }
}

/// The outcome shape of an ordinary callback: success, or a failure judged
/// by the error policy.
pub open spec fn plain_outcome(o: Outcome) -> bool {
    o == Outcome::Succeeded || o matches Outcome::Failed { .. }
}

/// The outcome shape of the quit callback: a quit decision, or a failure
/// judged by the error policy.
pub open spec fn quit_outcome(o: Outcome) -> bool {
    o == Outcome::QuitCancelled || o == Outcome::QuitDeclined || o matches Outcome::Failed { .. }
}

/// The callback a queued gamepad event translates to.
pub open spec fn gamepad_call(e: GamepadEvent) -> Call {
    match e.kind {
        GamepadEventKind::ButtonPressed(b) => Call::GamepadButtonDownEvent { btn: b, id: e.id },
        GamepadEventKind::ButtonReleased(b) => Call::GamepadButtonUpEvent { btn: b, id: e.id },
        GamepadEventKind::AxisChanged(a, v) => Call::GamepadAxisEvent {
            axis: a,
            value: v,
            id: e.id,
        },
    }
}

} // verus!
