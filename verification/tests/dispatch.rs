use std::marker::PhantomData;

use ggez_core::app::{AppHandler, Running};
use ggez_core::context::Context;
use ggez_core::event::{DeviceEvent, Event, TouchPhase};
use ggez_core::event::{ErrorOrigin, EventHandler};
use ggez_core::gamepad::{Axis, Button, GamepadEvent, GamepadEventKind, GamepadId};
use ggez_core::graphics::Renderer;
use ggez_core::keyboard::{LogicalKey, Modifiers, PhysicalKey};
use ggez_core::mouse::MouseButton;
use ggez_core::report::{Call, Outcome, TraceEntry};

struct Rec {
    log: Vec<String>,
    fail_update: bool,
    fail_draw: bool,
    fail_gamepad: bool,
    fail_quit: bool,
    cancel_quit: bool,
    fatal: bool,
}

impl Rec {
    fn new() -> Rec {
        Rec {
            log: Vec::new(),
            fail_update: false,
            fail_draw: false,
            fail_gamepad: false,
            fail_quit: false,
            cancel_quit: false,
            fatal: true,
        }
    }
}

impl EventHandler<String> for Rec {
    fn load(&mut self, _ctx: &mut Context) -> Result<(), String> {
        self.log.push("load".to_string());
        Ok(())
    }

    fn update(&mut self, _ctx: &mut Context) -> Result<(), String> {
        self.log.push("update".to_string());
        if self.fail_update {
            Err("update failed".to_string())
        } else {
            Ok(())
        }
    }

    fn draw(&mut self, _ctx: &mut Context) -> Result<(), String> {
        self.log.push("draw".to_string());
        if self.fail_draw {
            Err("draw failed".to_string())
        } else {
            Ok(())
        }
    }

    fn resize_event(&mut self, _ctx: &mut Context, width: u32, height: u32) -> Result<(), String> {
        self.log.push(format!("resize {} {}", width, height));
        Ok(())
    }

    fn mouse_motion_event(
        &mut self,
        _ctx: &mut Context,
        x: i64,
        y: i64,
        dx: i64,
        dy: i64,
    ) -> Result<(), String> {
        self.log.push(format!("motion {} {} {} {}", x, y, dx, dy));
        Ok(())
    }

    fn raw_mouse_motion_event(&mut self, _ctx: &mut Context, dx: i64, dy: i64) -> Result<(), String> {
        self.log.push(format!("raw {} {}", dx, dy));
        Ok(())
    }

    fn mouse_button_down_event(
        &mut self,
        _ctx: &mut Context,
        button: MouseButton,
        x: i64,
        y: i64,
    ) -> Result<(), String> {
        self.log.push(format!("button_down {:?} {} {}", button, x, y));
        Ok(())
    }

    fn mouse_button_up_event(
        &mut self,
        _ctx: &mut Context,
        button: MouseButton,
        x: i64,
        y: i64,
    ) -> Result<(), String> {
        self.log.push(format!("button_up {:?} {} {}", button, x, y));
        Ok(())
    }

    fn gamepad_button_down_event(
        &mut self,
        _ctx: &mut Context,
        btn: Button,
        id: GamepadId,
    ) -> Result<(), String> {
        self.log.push(format!("pad_down {:?} {}", btn, id.0));
        if self.fail_gamepad {
            Err("gamepad failed".to_string())
        } else {
            Ok(())
        }
    }

    fn gamepad_button_up_event(
        &mut self,
        _ctx: &mut Context,
        btn: Button,
        id: GamepadId,
    ) -> Result<(), String> {
        self.log.push(format!("pad_up {:?} {}", btn, id.0));
        Ok(())
    }

    fn gamepad_axis_event(
        &mut self,
        _ctx: &mut Context,
        axis: Axis,
        value: i32,
        id: GamepadId,
    ) -> Result<(), String> {
        self.log.push(format!("pad_axis {:?} {} {}", axis, value, id.0));
        Ok(())
    }

    fn quit_event(&mut self, _ctx: &mut Context) -> Result<bool, String> {
        self.log.push("quit_event".to_string());
        if self.fail_quit {
            Err("quit failed".to_string())
        } else {
            Ok(self.cancel_quit)
        }
    }

    fn on_error(&mut self, _ctx: &mut Context, origin: ErrorOrigin, error: String) -> bool {
        self.log.push(format!("on_error {:?} {}", origin, error));
        self.fatal
    }
}

struct MockRenderer {
    resizes: Vec<(u32, u32)>,
    begins: u32,
    ends: u32,
    fail_begin: bool,
    fail_end: bool,
}

impl MockRenderer {
    fn new() -> MockRenderer {
        MockRenderer { resizes: Vec::new(), begins: 0, ends: 0, fail_begin: false, fail_end: false }
    }
}

impl Renderer<String> for MockRenderer {
    fn resize(&mut self, width: u32, height: u32) {
        self.resizes.push((width, height));
    }

    fn begin_frame(&mut self) -> Result<(), String> {
        self.begins += 1;
        if self.fail_begin {
            Err("begin failed".to_string())
        } else {
            Ok(())
        }
    }

    fn end_frame(&mut self) -> Result<(), String> {
        self.ends += 1;
        if self.fail_end {
            Err("end failed".to_string())
        } else {
            Ok(())
        }
    }
}

type App = AppHandler<Rec, String, MockRenderer, String, Running>;

fn running(state: Rec, renderer: MockRenderer) -> App {
    AppHandler { ctx: Context::new(), state, renderer, marker: PhantomData }
}

fn count(log: &[String], needle: &str) -> usize {
    log.iter().filter(|l| l.as_str() == needle).count()
}

#[test]
fn resize_dispatches_once_with_same_dimensions() {
    let mut app = running(Rec::new(), MockRenderer::new());
    let report = app.window_event(&Event::Resized { width: 800, height: 600 });
    assert_eq!(
        report.entries,
        vec![
            TraceEntry {
                call: Call::RendererResize { width: 800, height: 600 },
                outcome: Outcome::Succeeded,
            },
            TraceEntry {
                call: Call::ResizeEvent { width: 800, height: 600 },
                outcome: Outcome::Succeeded,
            },
        ]
    );
    assert!(!report.exit);
    assert_eq!(app.renderer.resizes, vec![(800, 600)]);
    assert_eq!(count(&app.state.log, "resize 800 600"), 1);
}

#[test]
fn raw_device_motion_is_forwarded_per_event() {
    let mut app = running(Rec::new(), MockRenderer::new());
    let r1 = app.device_event(&DeviceEvent::MouseMotion { dx: 1, dy: 0 });
    let r2 = app.device_event(&DeviceEvent::MouseMotion { dx: 0, dy: 2 });
    assert_eq!(
        r1.entries,
        vec![TraceEntry { call: Call::RawMouseMotionEvent { dx: 1, dy: 0 }, outcome: Outcome::Succeeded }]
    );
    assert_eq!(
        r2.entries,
        vec![TraceEntry { call: Call::RawMouseMotionEvent { dx: 0, dy: 2 }, outcome: Outcome::Succeeded }]
    );
    assert_eq!(app.state.log, vec!["raw 1 0".to_string(), "raw 0 2".to_string()]);
    let delta = app.ctx.mouse.last_delta();
    assert_eq!((delta.x, delta.y), (1, 2));
}

#[test]
fn cursor_motion_reports_cumulative_delta_and_tick_resets_it() {
    let mut app = running(Rec::new(), MockRenderer::new());
    app.window_event(&Event::CursorMoved { x: 3, y: 4 });
    let report = app.window_event(&Event::CursorMoved { x: 5, y: 4 });
    assert_eq!(
        report.entries,
        vec![TraceEntry {
            call: Call::MouseMotionEvent { x: 5, y: 4, dx: 5, dy: 4 },
            outcome: Outcome::Succeeded,
        }]
    );
    let delta = app.ctx.mouse.last_delta();
    assert_eq!((delta.x, delta.y), (5, 4));
    let tick = app.about_to_wait();
    assert!(!tick.exit);
    let delta = app.ctx.mouse.last_delta();
    assert_eq!((delta.x, delta.y), (0, 0));
}

#[test]
fn key_is_just_pressed_until_the_tick_commits() {
    let mut app = running(Rec::new(), MockRenderer::new());
    let key = LogicalKey::Character('a');
    app.window_event(&Event::KeyboardInput {
        logical: key,
        physical: PhysicalKey::Code(30),
        pressed: true,
    });
    assert!(app.ctx.keyboard.is_key_pressed(key));
    assert!(app.ctx.keyboard.is_key_just_pressed(key));
    app.about_to_wait();
    assert!(app.ctx.keyboard.is_key_pressed(key));
    assert!(!app.ctx.keyboard.is_key_just_pressed(key));
    app.window_event(&Event::KeyboardInput {
        logical: key,
        physical: PhysicalKey::Code(30),
        pressed: false,
    });
    assert!(!app.ctx.keyboard.is_key_pressed(key));
    assert!(app.ctx.keyboard.is_key_just_released(key));
}

#[test]
fn repeated_key_press_sets_the_repeat_flag() {
    let mut app = running(Rec::new(), MockRenderer::new());
    let press = Event::KeyboardInput {
        logical: LogicalKey::Character('z'),
        physical: PhysicalKey::Code(44),
        pressed: true,
    };
    let first = app.window_event(&press);
    let second = app.window_event(&press);
    match first.entries[0].call {
        Call::KeyDownEvent { repeated, .. } => assert!(!repeated),
        ref other => panic!("unexpected call {:?}", other),
    }
    match second.entries[0].call {
        Call::KeyDownEvent { repeated, .. } => assert!(repeated),
        ref other => panic!("unexpected call {:?}", other),
    }
}

#[test]
fn escape_key_requests_quit_by_default() {
    let mut app = running(Rec::new(), MockRenderer::new());
    app.window_event(&Event::KeyboardInput {
        logical: LogicalKey::Escape,
        physical: PhysicalKey::Code(1),
        pressed: true,
    });
    assert!(app.ctx.fields.quit_requested);
}

#[test]
fn cancelled_quit_keeps_running_and_still_ticks() {
    let mut rec = Rec::new();
    rec.cancel_quit = true;
    let mut app = running(rec, MockRenderer::new());
    app.ctx.request_quit();
    let report = app.new_events();
    assert_eq!(
        report.entries,
        vec![TraceEntry { call: Call::QuitEvent, outcome: Outcome::QuitCancelled }]
    );
    assert!(!report.exit);
    assert!(app.ctx.fields.continuing);
    assert!(!app.ctx.fields.quit_requested);
    let tick = app.about_to_wait();
    assert!(!tick.exit);
    assert_eq!(count(&app.state.log, "update"), 1);
    assert_eq!(count(&app.state.log, "draw"), 1);
}

#[test]
fn declined_quit_stops_the_loop() {
    let mut app = running(Rec::new(), MockRenderer::new());
    app.ctx.request_quit();
    let report = app.new_events();
    assert_eq!(
        report.entries,
        vec![TraceEntry { call: Call::QuitEvent, outcome: Outcome::QuitDeclined }]
    );
    assert!(report.exit);
    assert!(!app.ctx.fields.continuing);
    assert!(!app.ctx.fields.quit_requested);
    let again = app.new_events();
    assert!(again.exit);
    assert!(again.entries.is_empty());
}

#[test]
fn close_request_declined_quit_stops_the_loop_at_once() {
    let mut app = running(Rec::new(), MockRenderer::new());
    let report = app.window_event(&Event::CloseRequested);
    assert_eq!(
        report.entries,
        vec![TraceEntry { call: Call::QuitEvent, outcome: Outcome::QuitDeclined }]
    );
    assert!(report.exit);
    assert!(!app.ctx.fields.continuing);
    assert!(!app.ctx.fields.quit_requested);
}

#[test]
fn close_request_cancelled_quit_keeps_running() {
    let mut rec = Rec::new();
    rec.cancel_quit = true;
    let mut app = running(rec, MockRenderer::new());
    let report = app.window_event(&Event::CloseRequested);
    assert_eq!(
        report.entries,
        vec![TraceEntry { call: Call::QuitEvent, outcome: Outcome::QuitCancelled }]
    );
    assert!(!report.exit);
    assert!(app.ctx.fields.continuing);
    assert!(!app.ctx.fields.quit_requested);
}

#[test]
fn quit_error_is_fatal_when_the_policy_says_so() {
    let mut rec = Rec::new();
    rec.fail_quit = true;
    rec.fatal = true;
    let mut app = running(rec, MockRenderer::new());
    app.ctx.request_quit();
    let report = app.new_events();
    assert_eq!(
        report.entries,
        vec![TraceEntry { call: Call::QuitEvent, outcome: Outcome::Failed { fatal: true } }]
    );
    assert!(report.exit);
    assert_eq!(count(&app.state.log, "on_error QuitEvent quit failed"), 1);
}

#[test]
fn fatal_draw_error_skips_frame_end() {
    let mut rec = Rec::new();
    rec.fail_draw = true;
    rec.fatal = true;
    let mut app = running(rec, MockRenderer::new());
    app.window_event(&Event::CursorMoved { x: 7, y: 7 });
    let report = app.about_to_wait();
    assert_eq!(
        report.entries,
        vec![
            TraceEntry { call: Call::Update, outcome: Outcome::Succeeded },
            TraceEntry { call: Call::BeginFrame, outcome: Outcome::Succeeded },
            TraceEntry { call: Call::Draw, outcome: Outcome::Failed { fatal: true } },
        ]
    );
    assert!(report.exit);
    assert_eq!(app.renderer.begins, 1);
    assert_eq!(app.renderer.ends, 0);
    let delta = app.ctx.mouse.last_delta();
    assert_eq!((delta.x, delta.y), (7, 7));
}

#[test]
fn nonfatal_draw_error_still_ends_the_frame() {
    let mut rec = Rec::new();
    rec.fail_draw = true;
    rec.fatal = false;
    let mut app = running(rec, MockRenderer::new());
    let report = app.about_to_wait();
    assert_eq!(
        report.entries,
        vec![
            TraceEntry { call: Call::Update, outcome: Outcome::Succeeded },
            TraceEntry { call: Call::BeginFrame, outcome: Outcome::Succeeded },
            TraceEntry { call: Call::Draw, outcome: Outcome::Failed { fatal: false } },
            TraceEntry { call: Call::EndFrame, outcome: Outcome::Succeeded },
        ]
    );
    assert!(!report.exit);
    assert_eq!(app.renderer.ends, 1);
}

#[test]
fn begin_frame_failure_is_always_fatal() {
    let mut renderer = MockRenderer::new();
    renderer.fail_begin = true;
    let mut app = running(Rec::new(), renderer);
    let report = app.about_to_wait();
    assert_eq!(
        report.entries,
        vec![
            TraceEntry { call: Call::Update, outcome: Outcome::Succeeded },
            TraceEntry { call: Call::BeginFrame, outcome: Outcome::Failed { fatal: true } },
            TraceEntry { call: Call::Draw, outcome: Outcome::Succeeded },
            TraceEntry { call: Call::EndFrame, outcome: Outcome::Succeeded },
        ]
    );
    assert!(report.exit);
}

#[test]
fn end_frame_failure_is_always_fatal() {
    let mut renderer = MockRenderer::new();
    renderer.fail_end = true;
    let mut app = running(Rec::new(), renderer);
    let report = app.about_to_wait();
    assert!(report.exit);
    assert_eq!(
        report.entries.last(),
        Some(&TraceEntry { call: Call::EndFrame, outcome: Outcome::Failed { fatal: true } })
    );
}

#[test]
fn fatal_update_error_aborts_before_draw() {
    let mut rec = Rec::new();
    rec.fail_update = true;
    rec.fatal = true;
    let mut app = running(rec, MockRenderer::new());
    let report = app.about_to_wait();
    assert_eq!(
        report.entries,
        vec![TraceEntry { call: Call::Update, outcome: Outcome::Failed { fatal: true } }]
    );
    assert!(report.exit);
    assert_eq!(app.renderer.begins, 0);
    assert_eq!(count(&app.state.log, "draw"), 0);
}

#[test]
fn nonfatal_update_error_still_draws() {
    let mut rec = Rec::new();
    rec.fail_update = true;
    rec.fatal = false;
    let mut app = running(rec, MockRenderer::new());
    let report = app.about_to_wait();
    assert!(!report.exit);
    assert_eq!(report.entries.len(), 4);
    assert_eq!(report.entries[0].outcome, Outcome::Failed { fatal: false });
    assert_eq!(count(&app.state.log, "draw"), 1);
}

#[test]
fn gamepad_queue_is_drained_in_order_before_update() {
    let mut app = running(Rec::new(), MockRenderer::new());
    app.ctx.gamepad.push_event(GamepadEvent {
        id: GamepadId(1),
        kind: GamepadEventKind::ButtonPressed(Button::South),
    });
    app.ctx.gamepad.push_event(GamepadEvent {
        id: GamepadId(1),
        kind: GamepadEventKind::AxisChanged(Axis::LeftStickX, 500),
    });
    app.ctx.gamepad.push_event(GamepadEvent {
        id: GamepadId(2),
        kind: GamepadEventKind::ButtonReleased(Button::South),
    });
    let report = app.about_to_wait();
    assert!(!report.exit);
    assert_eq!(report.entries.len(), 7);
    assert_eq!(
        report.entries[0].call,
        Call::GamepadButtonDownEvent { btn: Button::South, id: GamepadId(1) }
    );
    assert_eq!(
        report.entries[1].call,
        Call::GamepadAxisEvent { axis: Axis::LeftStickX, value: 500, id: GamepadId(1) }
    );
    assert_eq!(
        report.entries[2].call,
        Call::GamepadButtonUpEvent { btn: Button::South, id: GamepadId(2) }
    );
    assert_eq!(report.entries[3].call, Call::Update);
    assert_eq!(app.ctx.gamepad.len(), 0);
    assert_eq!(
        app.state.log,
        vec![
            "pad_down South 1".to_string(),
            "pad_axis LeftStickX 500 1".to_string(),
            "pad_up South 2".to_string(),
            "update".to_string(),
            "draw".to_string(),
        ]
    );
}

#[test]
fn fatal_gamepad_error_aborts_the_drain_and_the_tick() {
    let mut rec = Rec::new();
    rec.fail_gamepad = true;
    rec.fatal = true;
    let mut app = running(rec, MockRenderer::new());
    app.ctx.gamepad.push_event(GamepadEvent {
        id: GamepadId(1),
        kind: GamepadEventKind::ButtonPressed(Button::East),
    });
    app.ctx.gamepad.push_event(GamepadEvent {
        id: GamepadId(1),
        kind: GamepadEventKind::ButtonReleased(Button::East),
    });
    let report = app.about_to_wait();
    assert_eq!(
        report.entries,
        vec![TraceEntry {
            call: Call::GamepadButtonDownEvent { btn: Button::East, id: GamepadId(1) },
            outcome: Outcome::Failed { fatal: true },
        }]
    );
    assert!(report.exit);
    assert_eq!(app.ctx.gamepad.len(), 1);
    assert_eq!(count(&app.state.log, "update"), 0);
}

#[test]
fn touch_events_act_on_the_mouse_model() {
    let mut app = running(Rec::new(), MockRenderer::new());
    let report = app.window_event(&Event::Touch { phase: TouchPhase::Started, x: 10, y: 20 });
    assert_eq!(
        report.entries,
        vec![TraceEntry {
            call: Call::TouchEvent { phase: TouchPhase::Started, x: 10, y: 20 },
            outcome: Outcome::Succeeded,
        }]
    );
    assert!(app.ctx.mouse.is_button_pressed(MouseButton::Left));
    let pos = app.ctx.mouse.position();
    assert_eq!((pos.x, pos.y), (10, 20));
    assert_eq!(count(&app.state.log, "button_down Left 10 20"), 1);
    app.window_event(&Event::Touch { phase: TouchPhase::Ended, x: 11, y: 21 });
    assert!(!app.ctx.mouse.is_button_pressed(MouseButton::Left));
    assert_eq!(count(&app.state.log, "button_up Left 11 21"), 1);
}

#[test]
fn mouse_buttons_report_the_current_position() {
    let mut app = running(Rec::new(), MockRenderer::new());
    app.window_event(&Event::CursorMoved { x: 40, y: 50 });
    let report = app.window_event(&Event::MouseInput { button: MouseButton::Right, pressed: true });
    assert_eq!(
        report.entries,
        vec![TraceEntry {
            call: Call::MouseButtonDownEvent { button: MouseButton::Right, x: 40, y: 50 },
            outcome: Outcome::Succeeded,
        }]
    );
    assert!(app.ctx.mouse.is_button_pressed(MouseButton::Right));
    assert!(app.ctx.mouse.is_button_just_pressed(MouseButton::Right));
    app.about_to_wait();
    assert!(!app.ctx.mouse.is_button_just_pressed(MouseButton::Right));
}

#[test]
fn modifiers_are_stored_without_a_callback() {
    let mut app = running(Rec::new(), MockRenderer::new());
    let mods = Modifiers { shift: true, ctrl: false, alt: true, logo: false };
    let report = app.window_event(&Event::ModifiersChanged { modifiers: mods });
    assert!(report.entries.is_empty());
    assert!(!report.exit);
    assert_eq!(app.ctx.keyboard.active_modifiers(), mods);
}

#[test]
fn unmatched_events_are_a_silent_no_op() {
    let mut app = running(Rec::new(), MockRenderer::new());
    let report = app.window_event(&Event::Other);
    assert!(report.entries.is_empty());
    assert!(!report.exit);
    assert!(app.state.log.is_empty());
    let report = app.device_event(&DeviceEvent::Other);
    assert!(report.entries.is_empty());
    assert!(!report.exit);
}

#[test]
fn clock_advances_once_per_tick() {
    let mut app = running(Rec::new(), MockRenderer::new());
    assert_eq!(app.ctx.time.ticks(), 0);
    app.about_to_wait();
    app.about_to_wait();
    assert_eq!(app.ctx.time.ticks(), 2);
}
