//! A terminal focus timer: the countdown and its phase cycle, the decisions that the
//! running application takes on clock ticks and key presses, daily statistics,
//! settings, and the command-line values that configure a run.

pub mod clock;
pub mod duration;
pub mod text;
pub mod config;
pub mod timer;
pub mod app;
pub mod calendar;
pub mod stats;
pub mod cli;
pub mod minimal;
