//! Decoding of counter-channel samples, per-bucket rates between consecutive
//! histogram samples, and the state carried from one sampling tick to the next.
//!
//! The native reporting service is reached by the program around this library;
//! here every native value arrives as plain data.

pub mod rate;
pub mod sample;
pub mod session;
