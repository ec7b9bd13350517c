//! The rendering collaborator's contract.
//!
//! Window-surface and GPU work are outside this crate. The host implements
//! this trait; the frame driver brackets the draw callback between
//! `begin_frame` and `end_frame`, treats a failure of either as always
//! fatal to the run loop, and forwards window resizes.

use vstd::prelude::*;

verus! {

/// What the core asks of the rendering collaborator. Nothing is assumed
/// of the results: the frame driver's contract states what it does for
/// every outcome.
pub trait Renderer<RE> {
    /// The window was resized to the given dimensions.
    fn resize(&mut self, width: u32, height: u32);

    /// Begins a frame. A failure is always fatal to the run loop.
    fn begin_frame(&mut self) -> (r: Result<(), RE>);

    /// Ends a frame. A failure is always fatal to the run loop.
    fn end_frame(&mut self) -> (r: Result<(), RE>);
}

} // verus!
