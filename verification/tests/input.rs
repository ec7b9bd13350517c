use ggez_core::context::{Context, TimeContext};
use ggez_core::event::{
    apply_default_key_down, apply_touch_to_mouse, default_error_verdict, default_quit_decision,
    ErrorOrigin, TouchPhase,
};
use ggez_core::gamepad::{Button, GamepadContext, GamepadEvent, GamepadEventKind, GamepadId};
use ggez_core::keyboard::{KeyInput, KeyboardContext, LogicalKey, Modifiers, PhysicalKey};
use ggez_core::mouse::{MouseButton, MouseContext};
use ggez_core::scalar::{sat_add_i64, sat_sub_i64};

fn key(logical: LogicalKey) -> KeyInput {
    KeyInput {
        logical,
        physical: PhysicalKey::Unidentified,
        mods: Modifiers { shift: false, ctrl: false, alt: false, logo: false },
    }
}

#[test]
fn default_key_down_requests_quit_only_for_escape() {
    let mut ctx = Context::new();
    apply_default_key_down(&mut ctx, key(LogicalKey::Character('a')));
    assert!(!ctx.fields.quit_requested);
    apply_default_key_down(&mut ctx, key(LogicalKey::Escape));
    assert!(ctx.fields.quit_requested);
    assert!(ctx.fields.continuing);
}

#[test]
fn default_touch_mapping_acts_on_the_mouse_model() {
    let mut mouse = MouseContext::new();
    apply_touch_to_mouse(&mut mouse, TouchPhase::Started, 5, 6);
    let pos = mouse.position();
    assert_eq!((pos.x, pos.y), (5, 6));
    assert!(mouse.is_button_pressed(MouseButton::Left));
    apply_touch_to_mouse(&mut mouse, TouchPhase::Moved, 7, 6);
    let delta = mouse.last_delta();
    assert_eq!((delta.x, delta.y), (7, 6));
    assert!(mouse.is_button_pressed(MouseButton::Left));
    apply_touch_to_mouse(&mut mouse, TouchPhase::Ended, 7, 6);
    assert!(!mouse.is_button_pressed(MouseButton::Left));
}

#[test]
fn default_quit_and_error_decisions() {
    assert_eq!(default_quit_decision::<String>(), Ok(false));
    assert!(default_error_verdict(ErrorOrigin::Draw, "boom".to_string()));
}

#[test]
fn saturating_scalar_arithmetic_is_exact_in_range() {
    assert_eq!(sat_add_i64(3, 4), 7);
    assert_eq!(sat_add_i64(-3, 4), 1);
    assert_eq!(sat_sub_i64(3, 4), -1);
    assert_eq!(sat_sub_i64(-3, -4), 1);
}

#[test]
fn saturating_scalar_arithmetic_clamps_at_the_ends() {
    assert_eq!(sat_add_i64(i64::MAX, 1), i64::MAX);
    assert_eq!(sat_add_i64(i64::MIN, -1), i64::MIN);
    assert_eq!(sat_sub_i64(i64::MIN, 1), i64::MIN);
    assert_eq!(sat_sub_i64(i64::MAX, -1), i64::MAX);
    assert_eq!(sat_sub_i64(0, i64::MIN), i64::MAX);
}

#[test]
fn mouse_delta_is_the_sum_of_raw_motions() {
    let mut mouse = MouseContext::new();
    mouse.handle_motion(1, 0);
    mouse.handle_motion(0, 2);
    mouse.handle_motion(-4, 5);
    let delta = mouse.last_delta();
    assert_eq!((delta.x, delta.y), (-3, 7));
    mouse.reset_delta();
    let delta = mouse.last_delta();
    assert_eq!((delta.x, delta.y), (0, 0));
}

#[test]
fn mouse_delta_saturates_instead_of_wrapping() {
    let mut mouse = MouseContext::new();
    mouse.handle_motion(i64::MAX, 0);
    mouse.handle_motion(1, 0);
    let delta = mouse.last_delta();
    assert_eq!(delta.x, i64::MAX);
}

#[test]
fn mouse_moves_accumulate_position_differences() {
    let mut mouse = MouseContext::new();
    mouse.handle_move(10, 10);
    mouse.handle_move(13, 8);
    let pos = mouse.position();
    assert_eq!((pos.x, pos.y), (13, 8));
    let delta = mouse.last_delta();
    assert_eq!((delta.x, delta.y), (13, 8));
}

#[test]
fn mouse_buttons_edge_detection_follows_the_commit() {
    let mut mouse = MouseContext::new();
    mouse.set_button(MouseButton::Left, true);
    assert!(mouse.is_button_pressed(MouseButton::Left));
    assert!(mouse.is_button_just_pressed(MouseButton::Left));
    assert!(!mouse.is_button_just_released(MouseButton::Left));
    mouse.save_mouse_state();
    assert!(!mouse.is_button_just_pressed(MouseButton::Left));
    mouse.set_button(MouseButton::Left, false);
    assert!(mouse.is_button_just_released(MouseButton::Left));
    mouse.save_mouse_state();
    assert!(!mouse.is_button_just_released(MouseButton::Left));
}

#[test]
fn setting_a_pressed_button_twice_keeps_one_entry() {
    let mut mouse = MouseContext::new();
    mouse.set_button(MouseButton::Other(7), true);
    mouse.set_button(MouseButton::Other(7), true);
    mouse.set_button(MouseButton::Other(7), false);
    assert!(!mouse.is_button_pressed(MouseButton::Other(7)));
}

#[test]
fn keyboard_tracks_both_key_identities() {
    let mut kb = KeyboardContext::new();
    kb.set_logical_key(LogicalKey::Character('q'), true);
    kb.set_physical_key(PhysicalKey::Code(16), true);
    assert!(kb.is_key_pressed(LogicalKey::Character('q')));
    assert!(kb.is_physical_key_pressed(PhysicalKey::Code(16)));
    assert!(!kb.is_key_pressed(LogicalKey::Character('w')));
    kb.set_logical_key(LogicalKey::Character('q'), false);
    assert!(!kb.is_key_pressed(LogicalKey::Character('q')));
    assert!(kb.is_physical_key_pressed(PhysicalKey::Code(16)));
}

#[test]
fn keyboard_just_pressed_is_true_only_before_the_commit() {
    let mut kb = KeyboardContext::new();
    let key = LogicalKey::Named(57);
    kb.set_logical_key(key, true);
    assert!(kb.is_key_just_pressed(key));
    kb.save_keyboard_state();
    assert!(kb.is_key_pressed(key));
    assert!(!kb.is_key_just_pressed(key));
    kb.set_logical_key(key, false);
    assert!(kb.is_key_just_released(key));
    kb.save_keyboard_state();
    assert!(!kb.is_key_just_released(key));
}

#[test]
fn keyboard_repeat_flag_notes_an_already_pressed_key() {
    let mut kb = KeyboardContext::new();
    let key = LogicalKey::Character('x');
    kb.set_logical_key(key, true);
    assert!(!kb.is_key_repeated());
    kb.set_logical_key(key, true);
    assert!(kb.is_key_repeated());
    kb.set_logical_key(key, false);
    assert!(!kb.is_key_repeated());
}

#[test]
fn keyboard_stores_the_modifier_set() {
    let mut kb = KeyboardContext::new();
    let mods = Modifiers { shift: false, ctrl: true, alt: false, logo: true };
    kb.set_modifiers(mods);
    assert_eq!(kb.active_modifiers(), mods);
}

#[test]
fn gamepad_queue_is_first_in_first_out() {
    let mut pad = GamepadContext::new();
    assert_eq!(pad.next_event(), None);
    let first = GamepadEvent { id: GamepadId(1), kind: GamepadEventKind::ButtonPressed(Button::Start) };
    let second = GamepadEvent { id: GamepadId(1), kind: GamepadEventKind::ButtonReleased(Button::Start) };
    pad.push_event(first);
    pad.push_event(second);
    assert_eq!(pad.len(), 2);
    assert_eq!(pad.next_event(), Some(first));
    assert_eq!(pad.next_event(), Some(second));
    assert_eq!(pad.next_event(), None);
}

#[test]
fn clock_ticks_count_up() {
    let mut time = TimeContext::new();
    assert_eq!(time.ticks(), 0);
    time.tick();
    time.tick();
    time.tick();
    assert_eq!(time.ticks(), 3);
}
