//! Event vocabulary, the user-handler contract, and the normalizer feed.
//!
//! Raw platform events arrive as plain-value records ([`Event`],
//! [`DeviceEvent`]); the process functions feed them into the context's
//! input normalizers. The [`EventHandler`] trait is the one boundary the
//! embedding application programs against: a set of named callbacks, each
//! returning a result in a caller-chosen error type. Callbacks receive the
//! context mutably but promise the [`callback_frame`] discipline: they may
//! request a quit, and leave the rest of the context to the components
//! that own it.

use vstd::prelude::*;
use crate::context::{callback_frame, touch_callback_frame, Context};
use crate::gamepad::{Axis, Button, GamepadId};
use crate::graphics::Renderer;
use crate::keyboard::{KeyInput, KeyboardContext, LogicalKey, Modifiers, PhysicalKey};
use crate::mouse::{MouseButton, MouseContext};
use crate::scalar::{sat_add, sat_sub};
use crate::seqs::seq_set_rel;

verus! {

/// Identifies which callback produced an error, for the error policy and
/// for diagnostics.
#[derive(Debug, Copy, Clone, Eq, PartialEq, Structural)]
pub enum ErrorOrigin {
    /// error originated in `load()`
    Load,
    /// error originated in `update()`
    Update,
    /// error originated in `draw()`
    Draw,
    /// error originated in `mouse_button_down_event()`
    MouseButtonDownEvent,
    /// error originated in `mouse_button_up_event()`
    MouseButtonUpEvent,
    /// error originated in `mouse_motion_event()`
    MouseMotionEvent,
    /// error originated in `raw_mouse_motion_event()`
    RawMouseMotionEvent,
    /// error originated in `mouse_enter_or_leave()`
    MouseEnterOrLeave,
    /// error originated in `mouse_wheel_event()`
    MouseWheelEvent,
    /// error originated in `key_down_event()`
    KeyDownEvent,
    /// error originated in `key_up_event()`
    KeyUpEvent,
    /// error originated in `text_input_event()`
    TextInputEvent,
    /// error originated in `touch_event()`
    TouchEvent,
    /// error originated in `gamepad_button_down_event()`
    GamepadButtonDownEvent,
    /// error originated in `gamepad_button_up_event()`
    GamepadButtonUpEvent,
    /// error originated in `gamepad_axis_event()`
    GamepadAxisEvent,
    /// error originated in `focus_event()`
    FocusEvent,
    /// error originated in `quit_event()`
    QuitEvent,
    /// error originated in `resize_event()`
    ResizeEvent,
}

/// The state of a touch: start, move, end, or cancellation.
#[derive(Clone, Copy, Debug, PartialEq, Eq, Structural)]
pub enum TouchPhase {
    Started,
    Moved,
    Ended,
    Cancelled,
}

/// A raw window event, as plain values in the logical coordinate space.
/// The host adapter converts its platform's event type into this
/// vocabulary; anything else maps to `Other`, which dispatch ignores — the
/// mapping is total, an unmatched event is a silent no-op, never an error.
#[derive(Clone, Copy, Debug, PartialEq, Eq, Structural)]
pub enum Event {
    Resized { width: u32, height: u32 },
    CloseRequested,
    Focused { gained: bool },
    ModifiersChanged { modifiers: Modifiers },
    KeyboardInput { logical: LogicalKey, physical: PhysicalKey, pressed: bool },
    MouseWheel { x: i64, y: i64 },
    MouseInput { button: MouseButton, pressed: bool },
    CursorMoved { x: i64, y: i64 },
    Touch { phase: TouchPhase, x: i64, y: i64 },
    CursorEntered,
    CursorLeft,
    Other,
}

/// A raw device event. Only relative mouse motion is forwarded, with the
/// unfiltered device deltas — distinct from the cursor-moved path, which
/// is display-space.
#[derive(Clone, Copy, Debug, PartialEq, Eq, Structural)]
pub enum DeviceEvent {
    MouseMotion { dx: i64, dy: i64 },
    Other,
}

/// The default key-down behavior: a press of the escape key requests a
/// quit; any other key changes nothing.
pub fn apply_default_key_down(ctx: &mut Context, input: KeyInput)
    ensures
        final(ctx).fields.quit_requested == (old(ctx).fields.quit_requested || input.logical
            == LogicalKey::Escape),
        final(ctx).fields.continuing == old(ctx).fields.continuing,
        final(ctx).time == old(ctx).time,
        final(ctx).keyboard == old(ctx).keyboard,
        final(ctx).mouse == old(ctx).mouse,
        final(ctx).gamepad == old(ctx).gamepad,
{
    if input.logical == LogicalKey::Escape {
        ctx.request_quit();
    }
}

/// The default quit decision: decline to cancel the quit, so the loop
/// stops.
pub fn default_quit_decision<E>() -> (r: Result<bool, E>)
    ensures
        r == Result::<bool, E>::Ok(false),
{
    Ok(false)
}

/// The default error classification: every error is fatal, whatever its
/// origin; nothing is kept of the error value.
pub fn default_error_verdict<E>(_origin: ErrorOrigin, _error: E) -> (r: bool)
    ensures
        r,
{
    true
}

/// How the default touch handler maps a touch onto the mouse model: the
/// cursor moves to the touch point — the difference joining the cumulative
/// delta — and a start presses the left button, an end or cancellation
/// releases it, while a plain move leaves the buttons alone.
pub open spec fn touch_mouse_rel(
    pre: MouseContext,
    post: MouseContext,
    phase: TouchPhase,
    x: i64,
    y: i64,
) -> bool {
    &&& post.spec_position() == (x as int, y as int)
    &&& post.spec_delta().0 == sat_add(pre.spec_delta().0, sat_sub(x as int, pre.spec_position().0))
    &&& post.spec_delta().1 == sat_add(pre.spec_delta().1, sat_sub(y as int, pre.spec_position().1))
    &&& post.previous_pressed() == pre.previous_pressed()
    &&& match phase {
        TouchPhase::Started => seq_set_rel(
            pre.buttons_pressed(),
            post.buttons_pressed(),
            MouseButton::Left,
            true,
        ),
        TouchPhase::Moved => post.buttons_pressed() == pre.buttons_pressed(),
        TouchPhase::Ended | TouchPhase::Cancelled => seq_set_rel(
            pre.buttons_pressed(),
            post.buttons_pressed(),
            MouseButton::Left,
            false,
        ),
    }
}

/// The default touch handler's state update, exactly [`touch_mouse_rel`].
pub fn apply_touch_to_mouse(mouse: &mut MouseContext, phase: TouchPhase, x: i64, y: i64)
    requires
        old(mouse).wf(),
    ensures
        final(mouse).wf(),
        touch_mouse_rel(*old(mouse), *final(mouse), phase, x, y),
{
    mouse.handle_move(x, y);
    match phase {
        TouchPhase::Started => {
            mouse.set_button(MouseButton::Left, true);
        },
        TouchPhase::Moved => {},
        TouchPhase::Ended | TouchPhase::Cancelled => {
            mouse.set_button(MouseButton::Left, false);
        },
    }
}

/// A trait defining event callbacks: the primary interface with the run
/// loop. Implement it for a type, overriding at least `load`, `update` and
/// `draw`, and hand it to the application handler.
///
/// Every callback promises the [`callback_frame`] discipline on the
/// context: an implementation may read everything and request a quit, but
/// must leave the `continuing` flag, the clock, the normalizer state and
/// the gamepad queue to the core. The default handlers do nothing, apart
/// from `key_down_event`, which requests a quit when the escape key goes
/// down — an override must re-implement that if desired — and `touch_event`,
/// which maps touch input onto the mouse model.
pub trait EventHandler<E> {
    /// Called exactly once, when the lifecycle first reaches the running
    /// state. Load and initialize resources here.
    fn load(&mut self, ctx: &mut Context) -> (r: Result<(), E>)
        requires
            old(ctx).wf(),
        ensures
            callback_frame(*old(ctx), *final(ctx)),
    ;

    /// Called once per tick to advance the game's logic.
    fn update(&mut self, ctx: &mut Context) -> (r: Result<(), E>)
        requires
            old(ctx).wf(),
        ensures
            callback_frame(*old(ctx), *final(ctx)),
    ;

    /// Called once per tick, between the renderer's frame-begin and
    /// frame-end steps, to draw the game.
    fn draw(&mut self, ctx: &mut Context) -> (r: Result<(), E>)
        requires
            old(ctx).wf(),
        ensures
            callback_frame(*old(ctx), *final(ctx)),
    ;

    /// A mouse button was pressed.
    fn mouse_button_down_event(
        &mut self,
        ctx: &mut Context,
        button: MouseButton,
        x: i64,
        y: i64,
    ) -> (r: Result<(), E>)
        requires
            old(ctx).wf(),
        ensures
            callback_frame(*old(ctx), *final(ctx)),
    {
        Ok(())
    }

    /// A mouse button was released.
    fn mouse_button_up_event(
        &mut self,
        ctx: &mut Context,
        button: MouseButton,
        x: i64,
        y: i64,
    ) -> (r: Result<(), E>)
        requires
            old(ctx).wf(),
        ensures
            callback_frame(*old(ctx), *final(ctx)),
    {
        Ok(())
    }

    /// The cursor moved: absolute position, plus the delta accumulated
    /// since the last per-tick reset (not since the previous raw event).
    fn mouse_motion_event(
        &mut self,
        ctx: &mut Context,
        x: i64,
        y: i64,
        dx: i64,
        dy: i64,
    ) -> (r: Result<(), E>)
        requires
            old(ctx).wf(),
        ensures
            callback_frame(*old(ctx), *final(ctx)),
    {
        Ok(())
    }

    /// Raw device mouse motion: the unfiltered per-event device delta.
    fn raw_mouse_motion_event(&mut self, ctx: &mut Context, dx: i64, dy: i64) -> (r: Result<
        (),
        E,
    >)
        requires
            old(ctx).wf(),
        ensures
            callback_frame(*old(ctx), *final(ctx)),
    {
        Ok(())
    }

    /// The cursor entered or left the window area.
    fn mouse_enter_or_leave(&mut self, ctx: &mut Context, entered: bool) -> (r: Result<(), E>)
        requires
            old(ctx).wf(),
        ensures
            callback_frame(*old(ctx), *final(ctx)),
    {
        Ok(())
    }

    /// The mouse wheel was scrolled, horizontally (x) or vertically (y).
    fn mouse_wheel_event(&mut self, ctx: &mut Context, x: i64, y: i64) -> (r: Result<(), E>)
        requires
            old(ctx).wf(),
        ensures
            callback_frame(*old(ctx), *final(ctx)),
    {
        Ok(())
    }

    /// A key went down. The default is [`apply_default_key_down`]: it
    /// requests a quit when the escape key is pressed; an override must
    /// re-implement that if desired.
    fn key_down_event(&mut self, ctx: &mut Context, input: KeyInput, repeated: bool) -> (r: Result<
        (),
        E,
    >)
        requires
            old(ctx).wf(),
        ensures
            callback_frame(*old(ctx), *final(ctx)),
    {
        apply_default_key_down(ctx, input);
        Ok(())
    }

    /// A key went up.
    fn key_up_event(&mut self, ctx: &mut Context, input: KeyInput) -> (r: Result<(), E>)
        requires
            old(ctx).wf(),
        ensures
            callback_frame(*old(ctx), *final(ctx)),
    {
        Ok(())
    }

    /// A unicode character was received, usually from keyboard input.
    fn text_input_event(&mut self, ctx: &mut Context, character: char) -> (r: Result<(), E>)
        requires
            old(ctx).wf(),
        ensures
            callback_frame(*old(ctx), *final(ctx)),
    {
        Ok(())
    }

    /// A touchscreen event. By default touch input maps onto the mouse
    /// model: a start acts as a left-button press, a move as cursor
    /// motion, an end or cancellation as a left-button release. This
    /// single-pointer mapping overwrites the one mouse state, so the touch
    /// callback's contract lets the mouse sub-context change.
    fn touch_event(&mut self, ctx: &mut Context, phase: TouchPhase, x: i64, y: i64) -> (r: Result<
        (),
        E,
    >)
        requires
            old(ctx).wf(),
        ensures
            touch_callback_frame(*old(ctx), *final(ctx)),
    {
        apply_touch_to_mouse(&mut ctx.mouse, phase, x, y);
        match phase {
            TouchPhase::Started => {
                self.mouse_button_down_event(ctx, MouseButton::Left, x, y)?;
            },
            TouchPhase::Moved => {
                let diff = ctx.mouse.last_delta();
                self.mouse_motion_event(ctx, x, y, diff.x, diff.y)?;
            },
            TouchPhase::Ended | TouchPhase::Cancelled => {
                self.mouse_button_up_event(ctx, MouseButton::Left, x, y)?;
            },
        }
        Ok(())
    }

    /// A gamepad button was pressed; `id` identifies which gamepad.
    fn gamepad_button_down_event(&mut self, ctx: &mut Context, btn: Button, id: GamepadId) -> (r:
        Result<(), E>)
        requires
            old(ctx).wf(),
        ensures
            callback_frame(*old(ctx), *final(ctx)),
    {
        Ok(())
    }

    /// A gamepad button was released; `id` identifies which gamepad.
    fn gamepad_button_up_event(&mut self, ctx: &mut Context, btn: Button, id: GamepadId) -> (r:
        Result<(), E>)
        requires
            old(ctx).wf(),
        ensures
            callback_frame(*old(ctx), *final(ctx)),
    {
        Ok(())
    }

    /// A gamepad axis moved; `id` identifies which gamepad.
    fn gamepad_axis_event(
        &mut self,
        ctx: &mut Context,
        axis: Axis,
        value: i32,
        id: GamepadId,
    ) -> (r: Result<(), E>)
        requires
            old(ctx).wf(),
        ensures
            callback_frame(*old(ctx), *final(ctx)),
    {
        Ok(())
    }

    /// The window gained or lost focus.
    fn focus_event(&mut self, ctx: &mut Context, gained: bool) -> (r: Result<(), E>)
        requires
            old(ctx).wf(),
        ensures
            callback_frame(*old(ctx), *final(ctx)),
    {
        Ok(())
    }

    /// Called upon a quit event. Returning `Ok(true)` cancels the quit;
    /// the default is [`default_quit_decision`], which declines to cancel,
    /// so the loop stops.
    fn quit_event(&mut self, ctx: &mut Context) -> (r: Result<bool, E>)
        requires
            old(ctx).wf(),
        ensures
            callback_frame(*old(ctx), *final(ctx)),
    {
        default_quit_decision()
    }

    /// The window was resized.
    fn resize_event(&mut self, ctx: &mut Context, width: u32, height: u32) -> (r: Result<(), E>)
        requires
            old(ctx).wf(),
        ensures
            callback_frame(*old(ctx), *final(ctx)),
    {
        Ok(())
    }

    /// A callback returned an error. Returning true classifies it as
    /// fatal, stopping the run loop — this is the only path by which a
    /// callback error can terminate the application. The default is
    /// [`default_error_verdict`], which treats every error as fatal.
    fn on_error(&mut self, ctx: &mut Context, origin: ErrorOrigin, error: E) -> (r: bool)
        requires
            old(ctx).wf(),
        ensures
            callback_frame(*old(ctx), *final(ctx)),
    {
        default_error_verdict(origin, error)
    }
}

/// How feeding one window event into the context changes the normalizers:
/// cursor moves update position and accumulate the delta, button and key
/// events update the pressed sets, a modifier change replaces the modifier
/// set, and everything else leaves the context untouched.
pub open spec fn window_process_rel(pre: Context, post: Context, event: Event) -> bool {
    &&& post.fields == pre.fields
    &&& post.time == pre.time
    &&& post.gamepad == pre.gamepad
    &&& match event {
        Event::CursorMoved { x, y } => post.keyboard == pre.keyboard && MouseContext::move_rel(
            pre.mouse,
            post.mouse,
            x,
            y,
        ),
        Event::MouseInput { button, pressed } => post.keyboard == pre.keyboard
            && MouseContext::button_rel(pre.mouse, post.mouse, button, pressed),
        Event::ModifiersChanged { modifiers } => {
            &&& post.mouse == pre.mouse
            &&& post.keyboard.spec_modifiers() == modifiers
            &&& post.keyboard.logical_pressed() == pre.keyboard.logical_pressed()
            &&& post.keyboard.physical_pressed() == pre.keyboard.physical_pressed()
            &&& post.keyboard.previous_pressed() == pre.keyboard.previous_pressed()
            &&& post.keyboard.spec_repeated() == pre.keyboard.spec_repeated()
        },
        Event::KeyboardInput { logical, physical, pressed } => post.mouse == pre.mouse
            && KeyboardContext::key_event_rel(pre.keyboard, post.keyboard, logical, physical, pressed),
        _ => post.keyboard == pre.keyboard && post.mouse == pre.mouse,
    }
}

/// How feeding one device event into the context changes the normalizers:
/// raw mouse motion accumulates into the cumulative delta.
pub open spec fn device_process_rel(pre: Context, post: Context, event: DeviceEvent) -> bool {
    &&& post.fields == pre.fields
    &&& post.time == pre.time
    &&& post.gamepad == pre.gamepad
    &&& post.keyboard == pre.keyboard
    &&& match event {
        DeviceEvent::MouseMotion { dx, dy } => MouseContext::motion_rel(
            pre.mouse,
            post.mouse,
            dx,
            dy,
        ),
        DeviceEvent::Other => post.mouse == pre.mouse,
    }
}

/// Feeds a window event into the context so the normalizers can update
/// their state, and forwards a resize to the rendering collaborator. When
/// rolling a custom event loop, call this on each event before processing
/// it yourself.
pub fn process_window_event<R: Renderer<RE>, RE>(
    ctx: &mut Context,
    renderer: &mut R,
    event: &Event,
)
    requires
        old(ctx).wf(),
    ensures
        final(ctx).wf(),
        window_process_rel(*old(ctx), *final(ctx), *event),
{
    match *event {
        Event::Resized { width, height } => {
            renderer.resize(width, height);
        },
        Event::CursorMoved { x, y } => {
            ctx.mouse.handle_move(x, y);
        },
        Event::MouseInput { button, pressed } => {
            ctx.mouse.set_button(button, pressed);
        },
        Event::ModifiersChanged { modifiers } => {
            ctx.keyboard.set_modifiers(modifiers);
        },
        Event::KeyboardInput { logical, physical, pressed } => {
            ctx.keyboard.set_logical_key(logical, pressed);
            ctx.keyboard.set_physical_key(physical, pressed);
        },
        _ => {},
    }
}

/// Feeds a device event into the context so the mouse normalizer can
/// accumulate raw motion. When rolling a custom event loop, call this on
/// each device event before processing it yourself.
pub fn process_device_event(ctx: &mut Context, event: &DeviceEvent)
    requires
        old(ctx).wf(),
    ensures
        final(ctx).wf(),
        device_process_rel(*old(ctx), *final(ctx), *event),
{
    match *event {
        DeviceEvent::MouseMotion { dx, dy } => {
            ctx.mouse.handle_motion(dx, dy);
        },
        DeviceEvent::Other => {},
    }
}

} // verus!
