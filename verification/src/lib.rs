//! Core decision logic of a continuous-emission hidden Markov model engine.
//!
//! Floating-point values are carried as IEEE-754 binary64 bit patterns
//! (`u64`), so that every comparison, clamp and control decision the engine
//! makes is verified here, while the arithmetic between those decisions is
//! performed by the surrounding application.

pub mod bits;
pub mod decode;
pub mod features;
pub mod model;
pub mod sampling;
pub mod trainer;
pub mod types;
