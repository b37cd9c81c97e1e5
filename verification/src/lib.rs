//! Resolves, for a given kernel scheduler and operating mode, the list of
//! command-line flags to launch that scheduler with.
//!
//! A configuration document may override the built-in flag table per
//! scheduler and per mode; anything it leaves unset falls back to the
//! built-in defaults.

pub mod config;
pub mod defaults;
pub mod laws;
pub mod sched;
pub mod tomlread;

pub use sched::get_name_from_scx;
pub use sched::SchedMode;
pub use sched::SupportedSched;
