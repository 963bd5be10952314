//! Supervisor for an external sensor-data sidecar process.
//!
//! The sidecar emits one JSON object per line on its standard output.  This
//! crate holds the verified core of its supervisor: the line parser, the
//! shared state store, the failure classifier, the restart watchdog's
//! decision logic, and the engine that merges sidecar readings into a
//! baseline statistics record.  Process spawning, stream capture and the
//! polling loops themselves are ordinary I/O and live outside the library;
//! they drive the store and the watchdog through the functions defined here.

pub mod data;
pub mod merge;
pub mod milli;
pub mod model;
pub mod parse;
pub mod stats;
pub mod status;
pub mod store;
pub mod text;
pub mod watchdog;

use vstd::prelude::*;

verus! {

/// Maximum number of automatic restart attempts before the watchdog gives up.
pub const MAX_RESTART_ATTEMPTS: u32 = 3;

/// Seconds without an accepted snapshot after which the sidecar counts as stalled.
pub const STALL_TIMEOUT_SECS: u64 = 10;

} // verus!
