//! Gamepad event queue.
//!
//! Gamepad device enumeration is an external collaborator: the host polls
//! its controller library and pushes normalized events into this queue.
//! The frame driver drains the queue at the start of every tick — until it
//! is empty, not for a fixed count — and translates each event into the
//! corresponding user callback.

use vstd::prelude::*;

verus! {

/// A gamepad button, in the controller vocabulary of the host's device
/// library.
#[derive(Clone, Copy, Debug, PartialEq, Eq, Structural)]
pub enum Button {
    South,
    East,
    North,
    West,
    C,
    Z,
    LeftTrigger,
    LeftTrigger2,
    RightTrigger,
    RightTrigger2,
    Select,
    Start,
    Mode,
    LeftThumb,
    RightThumb,
    DPadUp,
    DPadDown,
    DPadLeft,
    DPadRight,
    Unknown,
}

/// A gamepad axis.
#[derive(Clone, Copy, Debug, PartialEq, Eq, Structural)]
pub enum Axis {
    LeftStickX,
    LeftStickY,
    LeftZ,
    RightStickX,
    RightStickY,
    RightZ,
    DPadX,
    DPadY,
    Unknown,
}

/// Opaque identifier of a physical gamepad. Many events map to one device;
/// the device's lifecycle belongs to the external collaborator.
#[derive(Clone, Copy, Debug, PartialEq, Eq, Structural)]
pub struct GamepadId(pub usize);

/// What a queued gamepad event reports.
#[derive(Clone, Copy, Debug, PartialEq, Eq, Structural)]
pub enum GamepadEventKind {
    ButtonPressed(Button),
    ButtonReleased(Button),
    /// The axis value is a scalar in a host-chosen fixed-point unit.
    AxisChanged(Axis, i32),
}

/// A queued gamepad event.
#[derive(Clone, Copy, Debug, PartialEq, Eq, Structural)]
pub struct GamepadEvent {
    pub id: GamepadId,
    pub kind: GamepadEventKind,
}

/// Gamepad sub-context: the pending event queue, filled by the host and
/// drained by the frame driver in arrival order.
pub struct GamepadContext {
    queue: Vec<GamepadEvent>,
}

impl GamepadContext {
    /// The pending events, oldest first.
    pub closed spec fn spec_queue(&self) -> Seq<GamepadEvent> {
        self.queue@
    }

    /// A fresh, empty queue.
    pub fn new() -> (gc: GamepadContext)
        ensures
            gc.spec_queue() == Seq::<GamepadEvent>::empty(),
    {
        GamepadContext { queue: Vec::new() }
    }

    /// The number of pending events.
    pub fn len(&self) -> (r: usize)
        ensures
            r == self.spec_queue().len(),
    {
        self.queue.len()
    }

    /// The host appends a normalized event for the next tick's drain.
    pub fn push_event(&mut self, event: GamepadEvent)
        ensures
            final(self).spec_queue() == old(self).spec_queue().push(event),
    {
        self.queue.push(event);
    }

    /// Takes the oldest pending event, or nothing when the queue is empty
    /// — the non-blocking "next queued event or none" operation the frame
    /// driver drains with.
    pub fn next_event(&mut self) -> (r: Option<GamepadEvent>)
        ensures
            old(self).spec_queue().len() == 0 ==> r is None && final(self).spec_queue()
                == old(self).spec_queue(),
            old(self).spec_queue().len() > 0 ==> r == Some(old(self).spec_queue()[0])
                && final(self).spec_queue() == old(self).spec_queue().skip(1),
    {
        if self.queue.len() == 0 {
            None
        } else {
            let ev = self.queue.remove(0);
            proof {
                assert(self.spec_queue() =~= old(self).spec_queue().skip(1));
            }
            Some(ev)
        }
    }
}

} // verus!
