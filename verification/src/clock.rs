//! The clock pill and its panel: alarms, stopwatch and timer.
//!
//! Times are counted in nanoseconds on a monotonic clock (`u128`); a
//! duration is a count of nanoseconds no larger than `MAX_DURATION_NANOS`.

pub mod action;
pub mod alarms;
pub mod format;
pub mod panel;
pub mod pill;
pub mod state;
pub mod zones;
