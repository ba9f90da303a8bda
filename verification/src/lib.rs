//! Watch a filesystem path and run a command when it changes.
//!
//! The change-event pipeline — classifying raw notifications, filtering them
//! against an exclusion rule, and deciding whether the configured command is
//! dispatched — lives here with proved contracts.  Everything that touches
//! the operating system (the notification backend, process spawning,
//! argument parsing) stays outside and hands this library plain values.

pub mod errors;
pub mod event;
pub mod filter;
pub mod matcher;
pub mod watch;
