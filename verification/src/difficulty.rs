//! Errors of the difficulty window computation.

use vstd::prelude::*;

verus! {

/// An error raised while assembling a difficulty window.
#[derive(Clone, Copy, Debug, PartialEq, Eq, Structural)]
pub enum DifficultyError {
    /// The window is smaller than the minimum allowed size: `(actual, minimum)`.
    UnderMinWindowSizeAllowed(usize, usize),
    /// The minimum window timestamp equals the maximum window timestamp.
    EmptyTimestampRange,
}

pub type DifficultyResult<T> = core::result::Result<T, DifficultyError>;

} // verus!
