//! The renderer-side core of a game audio engine: command transport, resource
//! arenas, the mixer's routing order and the state machines that drive tweens,
//! clocks and effects.
//!
//! Sample arithmetic is left to the caller. Wherever a real number has to be
//! stored or passed along, the library carries its IEEE-754 bit pattern and
//! never computes on it.

pub mod arena;
pub mod clock;
pub mod clocks;
pub mod dsp;
pub mod error;
pub mod line;
pub mod mixer;
pub mod parameter;
pub mod queue;
pub mod remainder;
pub mod shared;
pub mod sound;
pub mod track;
pub mod tween;
pub mod value;

pub use error::{CommandError, CommandQueueFull};
