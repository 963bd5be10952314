//! The shared state store.
//!
//! [`SidecarState`] holds one [`StoreModel`] behind a reader-writer lock
//! whose invariant is [`store_wf`], so every value the lock ever stores
//! keeps the restart counter within its budget.  All accessors take `&self`
//! and may be called from any number of threads at once; each one acquires
//! the lock, applies one of the model's verified transitions (or copies a
//! part of the model out), and releases.  A reader can therefore never
//! observe a half-written snapshot: the data is replaced wholesale under
//! the lock, and all verified code is free of panics.  For the same reason
//! the lock can never be poisoned: no thread holding it can panic, so no
//! degraded default path is needed.  The functional
//! contract of each operation is stated on [`StoreModel`]; what a `&self`
//! accessor returns depends on which writes happened to come before it.

use crate::MAX_RESTART_ATTEMPTS;
use crate::data::{SidecarData, copy_milli_opts};
use crate::milli::Milli;
use crate::model::{IngestOutcome, StoreModel, spec_ingest_outcome, stalled_at, store_wf};
use crate::status::{SidecarStatus, SidecarStatusInfo};
use crate::watchdog::WatchdogDirective;
use vstd::prelude::*;
use vstd::rwlock::RwLock;
use vstd::rwlock::RwLockPredicate;

verus! {

/// The lock invariant: every stored model is well-formed.
pub struct StorePred;

impl RwLockPredicate<StoreModel> for StorePred {
    open spec fn inv(self, m: StoreModel) -> bool {
        store_wf(m@)
    }
}

/// Thread-safe container for the latest snapshot, the supervisor status,
/// the restart counter and the last-update time.
pub struct SidecarState {
    inner: RwLock<StoreModel, StorePred>,
}

/// Relies on `std::time::SystemTime::now`: the wall clock, read once and
/// converted to whole milliseconds since the Unix epoch (zero if the clock
/// reads before the epoch).  The result depends on the moment of the call,
/// so nothing is promised of it.
#[verifier::external_body]
fn now_millis() -> u64 {
    match std::time::SystemTime::now().duration_since(std::time::UNIX_EPOCH) {
        Ok(d) => d.as_millis() as u64,
        Err(_) => 0,
    }
}

impl SidecarState {
    /// A fresh store: no data, status `NotStarted`, counter zero.
    pub fn new() -> SidecarState {
        SidecarState { inner: RwLock::new(StoreModel::init(), Ghost(StorePred)) }
    }

    /// The latest accepted snapshot, or `None` if none ever arrived.
    pub fn get_data(&self) -> Option<SidecarData> {
        let handle = self.inner.acquire_read();
        let r = match &handle.borrow().data {
            Some(d) => Some(d.duplicate()),
            None => None,
        };
        handle.release_read();
        r
    }

    /// Stores a snapshot wholesale, stamping the current time; if the
    /// snapshot carries a child-reported error, the status becomes
    /// `Error` with that reason (see [`crate::model::spec_set_data`]).
    pub fn set_data(&self, data: SidecarData) {
        let now = now_millis();
        let (mut m, handle) = self.inner.acquire_write();
        m.set_data(data, now);
        handle.release_write(m);
    }

    /// The current status.
    pub fn get_status(&self) -> SidecarStatus {
        let handle = self.inner.acquire_read();
        let r = handle.borrow().status.duplicate();
        handle.release_read();
        r
    }

    /// The current status, classified for the presentation layer.
    pub fn get_status_info(&self) -> SidecarStatusInfo {
        let handle = self.inner.acquire_read();
        let r = SidecarStatusInfo::of_status(&handle.borrow().status);
        handle.release_read();
        r
    }

    /// Replaces the status.
    pub fn set_status(&self, status: SidecarStatus) {
        let (mut m, handle) = self.inner.acquire_write();
        m.set_status(status);
        handle.release_write(m);
    }

    /// Books one more restart attempt and returns the new counter value,
    /// which never exceeds the budget.
    pub fn increment_restart_count(&self) -> (r: u32)
        ensures
            r <= MAX_RESTART_ATTEMPTS,
    {
        let (mut m, handle) = self.inner.acquire_write();
        let r = m.increment_restart_count();
        handle.release_write(m);
        r
    }

    /// Clears the restart counter (on recovery).
    pub fn reset_restart_count(&self) {
        let (mut m, handle) = self.inner.acquire_write();
        m.reset_restart_count();
        handle.release_write(m);
    }

    /// The restart counter; never exceeds the budget.
    pub fn get_restart_count(&self) -> (r: u32)
        ensures
            r <= MAX_RESTART_ATTEMPTS,
    {
        let handle = self.inner.acquire_read();
        let r = handle.borrow().restart_count;
        handle.release_read();
        r
    }

    /// Whether a further automatic restart is allowed (counter below budget).
    pub fn can_restart(&self) -> bool {
        let handle = self.inner.acquire_read();
        let r = handle.borrow().can_restart();
        handle.release_read();
        r
    }

    /// Whether a snapshot was accepted before and more than the stall
    /// threshold has passed since (see [`crate::model::spec_stalled_at`]).
    pub fn is_stalled(&self) -> bool {
        let handle = self.inner.acquire_read();
        let last = handle.borrow().last_data_ms;
        handle.release_read();
        let now = now_millis();
        stalled_at(last, now)
    }

    /// CPU temperature of the latest snapshot, if one carries it.
    pub fn get_cpu_temperature(&self) -> Option<Milli> {
        let handle = self.inner.acquire_read();
        let r = match &handle.borrow().data {
            Some(d) => match &d.cpu {
                Some(c) => c.temperature,
                None => None,
            },
            None => None,
        };
        handle.release_read();
        r
    }

    /// Per-core CPU temperatures of the latest snapshot (empty if none).
    pub fn get_cpu_core_temperatures(&self) -> Vec<Option<Milli>> {
        let handle = self.inner.acquire_read();
        let r = match &handle.borrow().data {
            Some(d) => match &d.cpu {
                Some(c) => copy_milli_opts(&c.core_temperatures),
                None => Vec::new(),
            },
            None => Vec::new(),
        };
        handle.release_read();
        r
    }

    /// CPU power draw of the latest snapshot, if one carries it.
    pub fn get_cpu_power(&self) -> Option<Milli> {
        let handle = self.inner.acquire_read();
        let r = match &handle.borrow().data {
            Some(d) => match &d.cpu {
                Some(c) => c.power,
                None => None,
            },
            None => None,
        };
        handle.release_read();
        r
    }

    /// Feeds one line of sidecar output through the parser into the store,
    /// atomically, per [`crate::model::spec_ingest`]; the outcome depends
    /// on the line alone.
    pub fn ingest_line(&self, line: &str) -> (r: IngestOutcome)
        ensures
            r == spec_ingest_outcome(line@),
    {
        let now = now_millis();
        let (mut m, handle) = self.inner.acquire_write();
        let r = m.ingest_line(line, now);
        handle.release_write(m);
        r
    }

    /// One watchdog poll, applied atomically to the store; see
    /// [`crate::watchdog::spec_watchdog_state`] for the transition and
    /// [`crate::watchdog::spec_watchdog_directive`] for the directive.
    pub fn watchdog_poll(&self) -> WatchdogDirective {
        let (mut m, handle) = self.inner.acquire_write();
        let r = m.watchdog_step();
        handle.release_write(m);
        r
    }
}

impl Default for SidecarState {
    fn default() -> Self {
        SidecarState::new()
    }
}

} // verus!
