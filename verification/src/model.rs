//! The store's contents and their transitions.
//!
//! [`StoreModel`] is the value kept behind the shared store's lock: the
//! latest accepted snapshot, the supervisor status, the restart counter and
//! the time of the last accepted snapshot.  Every way the store can change
//! is a method here with an exact contract over [`StoreView`]; the
//! concurrent shell only wraps these methods in mutual exclusion.

use crate::MAX_RESTART_ATTEMPTS;
use crate::STALL_TIMEOUT_SECS;
use crate::data::{SidecarData, SidecarDataView};
use crate::parse::{LineParse, parse_snapshot_line, spec_line_is_blank, spec_parse_snapshot};
use crate::status::{SidecarStatus, StatusView};
use vstd::prelude::*;

verus! {

/// Contents of the shared store.
pub struct StoreModel {
    /// Latest accepted snapshot, or `None` if none ever arrived.
    pub data: Option<SidecarData>,
    /// Current supervisor status.
    pub status: SidecarStatus,
    /// Number of automatic restarts attempted since the counter was last
    /// reset; never exceeds [`MAX_RESTART_ATTEMPTS`].
    pub restart_count: u32,
    /// Wall-clock milliseconds at which the latest snapshot was accepted.
    pub last_data_ms: Option<u64>,
}

/// Mathematical image of the store's contents.
pub struct StoreView {
    pub data: Option<SidecarDataView>,
    pub status: StatusView,
    pub restart_count: int,
    pub last_data_ms: Option<int>,
}

impl View for StoreModel {
    type V = StoreView;

    open spec fn view(&self) -> StoreView {
        StoreView {
            data: match self.data {
                Some(d) => Some(d@),
                None => None,
            },
            status: self.status@,
            restart_count: self.restart_count as int,
            last_data_ms: match self.last_data_ms {
                Some(t) => Some(t as int),
                None => None,
            },
        }
    }
}

/// The store's invariant: the restart counter stays within the budget.
pub open spec fn store_wf(v: StoreView) -> bool {
    0 <= v.restart_count <= MAX_RESTART_ATTEMPTS as int
}

/// The fresh store: no data, not started, counter zero.
pub open spec fn spec_store_init() -> StoreView {
    StoreView {
        data: None,
        status: StatusView::NotStarted,
        restart_count: 0,
        last_data_ms: None,
    }
}

/// Storing a snapshot replaces the data wholesale, stamps the time, and, if
/// the snapshot carries a child-reported error, surfaces it as the status.
pub open spec fn spec_set_data(v: StoreView, d: SidecarDataView, now: int) -> StoreView {
    StoreView {
        data: Some(d),
        status: match d.error {
            Some(e) => StatusView::Error(e),
            None => v.status,
        },
        last_data_ms: Some(now),
        ..v
    }
}

/// Effect of one line of sidecar output on the store: a blank or malformed
/// line changes nothing; a decoded snapshot makes the status `Running`
/// (unless the snapshot itself reports an error) and is stored wholesale.
pub open spec fn spec_ingest(v: StoreView, line: Seq<char>, now: int) -> StoreView {
    if spec_line_is_blank(line) {
        v
    } else {
        match spec_parse_snapshot(line) {
            Some(d) => spec_set_data(StoreView { status: StatusView::Running, ..v }, d, now),
            None => v,
        }
    }
}

/// What [`StoreModel::ingest_line`] reports for a line.
#[derive(Clone, Copy, Debug, PartialEq, Eq, Structural)]
pub enum IngestOutcome {
    /// The line decoded to a snapshot, which is now stored.
    Accepted,
    /// The line held only whitespace and was ignored.
    Ignored,
    /// The line was rejected by the grammar and dropped.
    Malformed,
}

pub open spec fn spec_ingest_outcome(line: Seq<char>) -> IngestOutcome {
    if spec_line_is_blank(line) {
        IngestOutcome::Ignored
    } else if spec_parse_snapshot(line) is Some {
        IngestOutcome::Accepted
    } else {
        IngestOutcome::Malformed
    }
}

/// The counter after one restart attempt: one more, capped at the budget.
pub open spec fn spec_increment(v: StoreView) -> StoreView {
    StoreView {
        restart_count: if v.restart_count < MAX_RESTART_ATTEMPTS as int {
            v.restart_count + 1
        } else {
            v.restart_count
        },
        ..v
    }
}

/// The sidecar counts as stalled when a snapshot was accepted before and
/// more than [`STALL_TIMEOUT_SECS`] whole seconds have passed since.
pub open spec fn spec_stalled_at(last_ms: Option<int>, now_ms: int) -> bool {
    match last_ms {
        Some(l) => now_ms >= l && (now_ms - l) / 1000 > STALL_TIMEOUT_SECS as int,
        None => false,
    }
}

/// Whether the elapsed time since the last accepted snapshot exceeds the
/// stall threshold.
pub fn stalled_at(last_ms: Option<u64>, now_ms: u64) -> (r: bool)
    ensures
        r == spec_stalled_at(
            match last_ms {
                Some(l) => Some(l as int),
                None => None,
            },
            now_ms as int,
        ),
{
    match last_ms {
        Some(l) => now_ms >= l && (now_ms - l) / 1000 > STALL_TIMEOUT_SECS,
        None => false,
    }
}

impl StoreModel {
    /// The fresh store.
    pub fn init() -> (r: StoreModel)
        ensures
            r@ == spec_store_init(),
            store_wf(r@),
    {
        StoreModel {
            data: None,
            status: SidecarStatus::NotStarted,
            restart_count: 0,
            last_data_ms: None,
        }
    }

    /// Stores a snapshot, per [`spec_set_data`].
    pub fn set_data(&mut self, data: SidecarData, now_ms: u64)
        ensures
            final(self)@ == spec_set_data(old(self)@, data@, now_ms as int),
            store_wf(old(self)@) ==> store_wf(final(self)@),
    {
        match &data.error {
            Some(e) => {
                self.status = SidecarStatus::Error(e.clone());
            },
            None => {},
        }
        self.last_data_ms = Some(now_ms);
        self.data = Some(data);
    }

    /// Replaces the status.
    pub fn set_status(&mut self, status: SidecarStatus)
        ensures
            final(self)@ == (StoreView { status: status@, ..old(self)@ }),
            store_wf(old(self)@) ==> store_wf(final(self)@),
    {
        self.status = status;
    }

    /// Feeds one line of sidecar output through the parser, per
    /// [`spec_ingest`]: an accepted snapshot also brings the status back to
    /// `Running` first, so a child-reported error in the snapshot wins.
    pub fn ingest_line(&mut self, line: &str, now_ms: u64) -> (r: IngestOutcome)
        ensures
            final(self)@ == spec_ingest(old(self)@, line@, now_ms as int),
            r == spec_ingest_outcome(line@),
            store_wf(old(self)@) ==> store_wf(final(self)@),
    {
        match parse_snapshot_line(line) {
            LineParse::Blank => IngestOutcome::Ignored,
            LineParse::Malformed => IngestOutcome::Malformed,
            LineParse::Snapshot(d) => {
                if !self.status.is_running() {
                    self.set_status(SidecarStatus::Running);
                }
                self.set_data(d, now_ms);
                IngestOutcome::Accepted
            },
        }
    }

    /// One more restart attempt, capped at the budget; returns the counter
    /// after the increment.
    pub fn increment_restart_count(&mut self) -> (r: u32)
        ensures
            final(self)@ == spec_increment(old(self)@),
            r == final(self).restart_count,
            store_wf(old(self)@) ==> store_wf(final(self)@),
    {
        if self.restart_count < MAX_RESTART_ATTEMPTS {
            self.restart_count = self.restart_count + 1;
        }
        self.restart_count
    }

    /// Resets the restart counter (on recovery).
    pub fn reset_restart_count(&mut self)
        ensures
            final(self)@ == (StoreView { restart_count: 0, ..old(self)@ }),
            store_wf(final(self)@),
    {
        self.restart_count = 0;
    }

    /// A further automatic restart is allowed while the counter is below
    /// the budget.
    pub fn can_restart(&self) -> (r: bool)
        ensures
            r == (self@.restart_count < MAX_RESTART_ATTEMPTS as int),
    {
        self.restart_count < MAX_RESTART_ATTEMPTS
    }
}

/// A snapshot line that carries `"error":"<msg>"` drives the status to
/// `Error(<msg>)` while the rest of the snapshot is stored as data.
pub proof fn lemma_error_line_surfaces_status(v: StoreView, line: Seq<char>, now: int)
    requires
        spec_parse_snapshot(line) is Some,
        spec_parse_snapshot(line)->Some_0.error is Some,
    ensures
        spec_ingest(v, line, now).status
            == StatusView::Error(spec_parse_snapshot(line)->Some_0.error->0),
        spec_ingest(v, line, now).data == Some(spec_parse_snapshot(line)->Some_0),
{
    assert(!spec_line_is_blank(line));
}

/// A malformed (or blank) line between two decoded lines leaves the store
/// exactly as the two decoded lines alone would: the bad line is a no-op.
pub proof fn lemma_malformed_line_is_noop(
    v: StoreView,
    l1: Seq<char>,
    l2: Seq<char>,
    l3: Seq<char>,
    t1: int,
    t2: int,
    t3: int,
)
    requires
        spec_parse_snapshot(l2) is None,
    ensures
        spec_ingest(spec_ingest(spec_ingest(v, l1, t1), l2, t2), l3, t3)
            == spec_ingest(spec_ingest(v, l1, t1), l3, t3),
{
}

} // verus!
