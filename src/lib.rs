//! Observes the operating system's text selection and hands the most recently
//! captured text to callers through a uniform start / stop / query interface.
//!
//! The library holds the verified core of a listener: its lifecycle, the slot
//! that keeps the last captured text, and the decisions each platform makes
//! around its capture mechanism. The capture mechanisms themselves (event taps,
//! automation engines, window-server connections) and their threads are driven
//! from outside, and report back through [`SelectionListener::record`].

mod error;
mod state;
pub mod lifecycle;
pub mod platform;
pub mod windows;
pub mod macos;
pub mod linux;
pub mod laws;

pub use error::SelectionError;
pub use state::SelectionState;
