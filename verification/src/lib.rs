//! Background keyboard-state capture engine: canonical key translation,
//! press/release diffing, a single-session registry state machine, a
//! single-hotkey monitor, and a snapshot delivery queue.
//!
//! The operating-system facing pieces (the global hook, the polling device,
//! the worker thread) live outside this crate; this library holds the logic
//! those pieces drive, with its behaviour stated and proved.

pub mod bridge;
pub mod differ;
pub mod hook;
pub mod hotkey;
pub mod session;
pub mod translate;
