//! Frame-synchronized input state tracking for a real-time application loop.
//!
//! The library turns a stream of raw pointer and button events, delivered
//! once per tick by a host event loop, into a queryable per-frame snapshot:
//! absolute position, motion deltas, button edge detection, and a mirror of
//! cursor properties owned by the platform window.

pub mod error;
pub mod mouse;
