//! Error types for operations that can fail against the platform.

use vstd::prelude::*;

verus! {

/// An error reported by an input operation that had to ask the platform
/// window for something the platform may refuse (grabbing the cursor,
/// warping the cursor position).
///
/// Such failures are attributable to platform policy (window not focused,
/// grab unsupported, ...) and are always recoverable: the caller may retry,
/// ignore, or fall back to another strategy.
#[derive(Debug)]
pub enum GameError {
    /// The platform rejected a window or cursor request; the payload is the
    /// platform's own description of why.
    WindowError(String),
}

impl GameError {
    /// The platform-supplied description carried by this error.
    pub open spec fn text(&self) -> Seq<char> {
        match self {
            GameError::WindowError(m) => m@,
        }
    }

    /// Returns the platform-supplied description of the failure.
    pub fn message(&self) -> (m: String)
        ensures
            m@ == self.text(),
    {
        match self {
            GameError::WindowError(m) => m.clone(),
        }
    }
}

/// A convenient result type for operations that may fail with a [`GameError`].
pub type GameResult<T> = Result<T, GameError>;

} // verus!
