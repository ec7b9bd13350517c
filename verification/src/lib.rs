//! Application lifecycle state machine and input-event dispatch layer.
//!
//! This crate is the control-flow skeleton that sits between a host
//! windowing/event system and a user-supplied set of game-logic callbacks.
//! It models the platform lifecycle (starting, running, suspended) as a
//! state machine, normalizes raw window and device input events, keeps the
//! per-tick input bookkeeping (cumulative mouse deltas, pressed-key sets,
//! previous-tick snapshots), applies a uniform error policy to every
//! callback result, and drives the fixed per-tick sequence of update, draw
//! and state commit.
//!
//! Windowing, rendering, audio playback and gamepad device enumeration are
//! external collaborators: the host hands this crate plain event values and
//! implements the [`graphics::Renderer`] trait, and the crate reports what
//! it dispatched through [`report::Report`] values.

pub mod app;
pub mod audio;
pub mod context;
pub mod error;
pub mod event;
pub mod gamepad;
pub mod graphics;
pub mod keyboard;
pub mod mouse;
pub mod report;
pub mod riff;
pub mod scalar;
pub mod seqs;
