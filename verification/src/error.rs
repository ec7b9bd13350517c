//! Error types for the crate's own operations.
//!
//! User callbacks carry a caller-chosen error type; these types cover only
//! what the crate itself can fail at.

use vstd::prelude::*;

verus! {

/// The standard I/O error type, declared so it can be carried in this
/// crate's own error type.
#[verifier::external_type_specification]
#[verifier::external_body]
pub struct ExIoError(std::io::Error);

/// An error from one of the crate's own operations.
#[derive(Debug)]
pub enum GameError {
    /// Reading sound data from a reader failed.
    IoError(std::io::Error),
}

/// Convenient result alias for the crate's own operations.
pub type GameResult<T> = Result<T, GameError>;

} // verus!
