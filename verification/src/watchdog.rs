//! The restart watchdog's decision logic.
//!
//! The watchdog is a polling loop that lives outside the library (it must
//! sleep and spawn processes); every decision it takes is the verified
//! [`StoreModel::watchdog_step`] here.  On observing `Stopped` it either
//! books one more restart attempt (up to [`MAX_RESTART_ATTEMPTS`]) or gives
//! up for good with a terminal error; on observing `Running` after a
//! restart it clears the counter; on observing an error it stops watching.

use crate::MAX_RESTART_ATTEMPTS;
use crate::model::{StoreModel, StoreView, spec_increment, store_wf};
use crate::status::{SidecarStatus, StatusView};
use vstd::prelude::*;

verus! {

/// What the polling loop must do after one poll of the store.
#[derive(Clone, Copy, Debug, PartialEq, Eq, Structural)]
pub enum WatchdogDirective {
    /// Nothing to do; poll again after the poll interval.
    Proceed,
    /// The process stopped and attempt number `n` of the restart budget was
    /// booked: wait the backoff, then try to spawn the sidecar again.
    Restart(u32),
    /// The restart budget is exhausted; the status now holds the terminal
    /// error and the loop must stop watching.
    GiveUp,
    /// An error status was observed; the loop must stop watching.
    Halt,
}

/// The terminal message, naming the restart budget.
pub open spec fn spec_give_up_message() -> Seq<char> {
    "Sidecar crashed 3 times, giving up"@
}

/// The terminal message, naming the restart budget.
pub fn give_up_message() -> (r: String)
    ensures
        r@ == spec_give_up_message(),
{
    String::from_str("Sidecar crashed 3 times, giving up")
}

/// The store after one watchdog poll.
pub open spec fn spec_watchdog_state(v: StoreView) -> StoreView {
    match v.status {
        StatusView::Stopped => if v.restart_count < MAX_RESTART_ATTEMPTS as int {
            spec_increment(v)
        } else {
            StoreView { status: StatusView::Error(spec_give_up_message()), ..v }
        },
        StatusView::Running => StoreView { restart_count: 0, ..v },
        StatusView::Error(m) => v,
        StatusView::NotStarted => v,
    }
}

/// The directive one watchdog poll hands the polling loop.
pub open spec fn spec_watchdog_directive(v: StoreView) -> WatchdogDirective {
    match v.status {
        StatusView::Stopped => if v.restart_count < MAX_RESTART_ATTEMPTS as int {
            WatchdogDirective::Restart((v.restart_count + 1) as u32)
        } else {
            WatchdogDirective::GiveUp
        },
        StatusView::Running => WatchdogDirective::Proceed,
        StatusView::Error(m) => WatchdogDirective::Halt,
        StatusView::NotStarted => WatchdogDirective::Proceed,
    }
}

impl StoreModel {
    /// One watchdog poll: reads the status and applies the restart policy,
    /// per [`spec_watchdog_state`] and [`spec_watchdog_directive`].
    pub fn watchdog_step(&mut self) -> (d: WatchdogDirective)
        ensures
            final(self)@ == spec_watchdog_state(old(self)@),
            d == spec_watchdog_directive(old(self)@),
            store_wf(old(self)@) ==> store_wf(final(self)@),
    {
        if matches!(self.status, SidecarStatus::Stopped) {
            if self.can_restart() {
                let c = self.increment_restart_count();
                WatchdogDirective::Restart(c)
            } else {
                self.set_status(SidecarStatus::Error(give_up_message()));
                WatchdogDirective::GiveUp
            }
        } else if matches!(self.status, SidecarStatus::Running) {
            if self.restart_count > 0 {
                self.reset_restart_count();
            }
            WatchdogDirective::Proceed
        } else if matches!(self.status, SidecarStatus::Error(_)) {
            WatchdogDirective::Halt
        } else {
            WatchdogDirective::Proceed
        }
    }
}

/// One thing the supervisor's surroundings can do to the store.
pub enum WatchdogEvent {
    /// The watchdog polls the store.
    Poll,
    /// A spawn attempt succeeded; the supervisor marks the process running.
    SpawnOk,
    /// A spawn attempt failed with the given reason.
    SpawnFailed(Seq<char>),
    /// The reader saw end-of-stream or a read error: the process died.
    StreamEnded,
    /// The reader fed one line of output at the given time.
    Line(Seq<char>, int),
}

/// Effect of one event on the store.
pub open spec fn spec_run_event(v: StoreView, e: WatchdogEvent) -> StoreView {
    match e {
        WatchdogEvent::Poll => spec_watchdog_state(v),
        WatchdogEvent::SpawnOk => StoreView { status: StatusView::Running, ..v },
        WatchdogEvent::SpawnFailed(m) => StoreView { status: StatusView::Error(m), ..v },
        WatchdogEvent::StreamEnded => StoreView { status: StatusView::Stopped, ..v },
        WatchdogEvent::Line(l, t) => crate::model::spec_ingest(v, l, t),
    }
}

/// The store after a sequence of events, applied in order from index `i`.
pub open spec fn spec_run_from(v: StoreView, es: Seq<WatchdogEvent>, i: int) -> StoreView
    decreases es.len() - i when 0 <= i <= es.len()
{
    if i < es.len() {
        spec_run_from(spec_run_event(v, es[i]), es, i + 1)
    } else {
        v
    }
}

/// The store after a sequence of events.
pub open spec fn spec_run(v: StoreView, es: Seq<WatchdogEvent>) -> StoreView {
    spec_run_from(v, es, 0)
}

/// A watchdog poll only ever moves the status and the restart counter:
/// the stored snapshot and its timestamp are untouched by the policy.
pub proof fn lemma_poll_preserves_data(v: StoreView)
    ensures
        spec_watchdog_state(v).data == v.data,
        spec_watchdog_state(v).last_data_ms == v.last_data_ms,
{
}

/// Every single event keeps the restart counter within the budget.
pub proof fn lemma_event_preserves_wf(v: StoreView, e: WatchdogEvent)
    requires
        store_wf(v),
    ensures
        store_wf(spec_run_event(v, e)),
{
}

proof fn lemma_run_from_preserves_wf(v: StoreView, es: Seq<WatchdogEvent>, i: int)
    requires
        store_wf(v),
        0 <= i <= es.len(),
    ensures
        store_wf(spec_run_from(v, es, i)),
    decreases es.len() - i,
{
    if i < es.len() {
        lemma_event_preserves_wf(v, es[i]);
        lemma_run_from_preserves_wf(spec_run_event(v, es[i]), es, i + 1);
    }
}

/// Along any sequence of polls, spawns, stream ends and lines, starting
/// from a store within the budget, the restart counter never exceeds the
/// budget: every prefix of the run ends within it.
pub proof fn lemma_counter_never_exceeds_budget(v: StoreView, es: Seq<WatchdogEvent>)
    requires
        store_wf(v),
    ensures
        forall|k: int| 0 <= k <= es.len() ==> store_wf(spec_run(v, #[trigger] es.take(k))),
{
    assert forall|k: int| 0 <= k <= es.len() implies store_wf(spec_run(v, #[trigger] es.take(k))) by {
        lemma_run_from_preserves_wf(v, es.take(k), 0);
    }
}

/// A poll that observes `Stopped` with the budget exhausted drives the
/// store into the terminal error naming the budget, and tells the loop to
/// give up; the counter does not move past the budget.
pub proof fn lemma_exhausted_poll_is_terminal(v: StoreView)
    requires
        v.status is Stopped,
        v.restart_count == MAX_RESTART_ATTEMPTS as int,
    ensures
        spec_watchdog_state(v).status == StatusView::Error(spec_give_up_message()),
        spec_watchdog_state(v).restart_count == MAX_RESTART_ATTEMPTS as int,
        spec_watchdog_directive(v) == WatchdogDirective::GiveUp,
{
}

/// After one more observed stop than the budget allows — each stop seen by
/// a poll, each booked restart spawning successfully and the process dying
/// again — the final status is the terminal error naming the budget, and
/// the counter stayed within the budget throughout.
pub proof fn lemma_budget_exhaustion(v: StoreView)
    requires
        store_wf(v),
        v.status is Stopped,
        v.restart_count == 0,
    ensures
        ({
            let es = seq![
                WatchdogEvent::Poll, WatchdogEvent::SpawnOk, WatchdogEvent::StreamEnded,
                WatchdogEvent::Poll, WatchdogEvent::SpawnOk, WatchdogEvent::StreamEnded,
                WatchdogEvent::Poll, WatchdogEvent::SpawnOk, WatchdogEvent::StreamEnded,
                WatchdogEvent::Poll,
            ];
            &&& spec_run(v, es).status == StatusView::Error(spec_give_up_message())
            &&& spec_run(v, es).restart_count == MAX_RESTART_ATTEMPTS as int
            &&& forall|k: int| 0 <= k <= es.len()
                ==> store_wf(spec_run(v, #[trigger] es.take(k)))
        }),
{
    let es = seq![
        WatchdogEvent::Poll, WatchdogEvent::SpawnOk, WatchdogEvent::StreamEnded,
        WatchdogEvent::Poll, WatchdogEvent::SpawnOk, WatchdogEvent::StreamEnded,
        WatchdogEvent::Poll, WatchdogEvent::SpawnOk, WatchdogEvent::StreamEnded,
        WatchdogEvent::Poll,
    ];
    lemma_counter_never_exceeds_budget(v, es);
    assert(spec_run(v, es).status == StatusView::Error(spec_give_up_message())
        && spec_run(v, es).restart_count == MAX_RESTART_ATTEMPTS as int) by {
        reveal_with_fuel(spec_run_from, 12);
    }
}

} // verus!
