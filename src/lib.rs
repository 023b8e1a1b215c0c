//! A streaming technical indicator over price bars.
//!
//! Prices are fixed-point integers (a raw amount in the smallest price unit),
//! so every computation here is exact. The indicator keeps one rolling window
//! per tracked bar field, warms up until the windows are full, then computes a
//! value from the window and classifies it into a trading signal.

pub mod indicator;
pub mod ops;
pub mod rolling_buffer;
pub mod signal;

pub use indicator::{Observation, Phase, PineIndicator};
pub use ops::{coalesce, crossover, crossunder};
pub use rolling_buffer::{ConfigError, RollingBuffer};
pub use signal::Signal;
