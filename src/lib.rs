//! A fixed-timestep game loop: simulation updates run at a constant rate while
//! renders run as often as the host allows, with a blending factor for
//! interpolation between the last two simulated states.
//!
//! All durations are whole nanoseconds; the blending factor is in billionths
//! of a fixed step.

pub mod base;
pub mod host;
pub mod laws;
pub mod time;

pub use base::{GameLoop, LoopView, RateError, NANOS_PER_SECOND};
pub use host::{HostAction, HostEvent};
pub use time::{Time, TimeTrait};
