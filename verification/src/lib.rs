//! Core of a small 2D golf arcade game, in fixed-point arithmetic.
//!
//! All coordinates, speeds and scales are integers in milli-units: one
//! thousandth of a screen unit. The library owns the level catalog, the
//! motion/collision engine and the launch state machine; rendering, audio
//! and the window/event loop live outside and exchange plain values with it.

pub mod mathfuncs;
pub mod state;
pub mod levels;
pub mod engine;
pub mod laws;
