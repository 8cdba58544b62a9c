//! Modifies audio signals.
//!
//! Each effect keeps here the state that decides what happens to a sample:
//! its parameters, its buffers and whether it was initialized. The sample
//! arithmetic itself is the caller's.

pub mod delay;
pub mod distortion;
pub mod filter;
pub mod reverb;
