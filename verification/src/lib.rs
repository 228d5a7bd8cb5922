//! cargopal: scaffold Rust projects from embedded templates, and run a
//! development server that restarts the project's process when its source
//! files change.
//!
//! The heart of the crate is [`supervisor::Supervisor`], the dev-mode
//! control loop as a verified state machine: it owns every decision about
//! debouncing bursts of file changes, pausing and resuming the watch around
//! a restart, and replacing the child process, while the unverified shell
//! around the library performs the filesystem and process operations the
//! machine asks for.  [`scaffold`] holds the verified planning of the `new`
//! command, and [`dev`] the project-descriptor check that gates dev mode.

pub mod cli;
pub mod dev;
pub mod scaffold;
pub mod supervisor;
pub mod template_scan;

use vstd::prelude::*;

verus! {

/// How long the control loop waits for a filesystem event before it checks
/// whether the supervised child process is still alive, in milliseconds.
pub const POLL_INTERVAL_MS: u64 = 100;

/// The quiet period of the trailing-edge debounce: a burst of change events
/// is considered settled once this much time passes with no further event,
/// in milliseconds.
pub const QUIET_PERIOD_MS: u64 = 200;

/// The pause after relaunching the child process, letting the child's own
/// startup-time filesystem activity finish before file watching resumes,
/// in milliseconds.
pub const SETTLE_DELAY_MS: u64 = 1000;

} // verus!
