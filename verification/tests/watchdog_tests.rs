use sidecar_supervisor::MAX_RESTART_ATTEMPTS;
use sidecar_supervisor::model::StoreModel;
use sidecar_supervisor::status::SidecarStatus;
use sidecar_supervisor::watchdog::WatchdogDirective;

#[test]
fn test_poll_not_started_proceeds() {
    let mut m = StoreModel::init();
    assert_eq!(m.watchdog_step(), WatchdogDirective::Proceed);
    assert_eq!(m.restart_count, 0);
}

#[test]
fn test_poll_running_resets_counter() {
    let mut m = StoreModel::init();
    m.set_status(SidecarStatus::Stopped);
    m.watchdog_step();
    assert_eq!(m.restart_count, 1);
    m.set_status(SidecarStatus::Running);
    assert_eq!(m.watchdog_step(), WatchdogDirective::Proceed);
    assert_eq!(m.restart_count, 0);
}

#[test]
fn test_poll_error_halts() {
    let mut m = StoreModel::init();
    m.set_status(SidecarStatus::Error(String::from("boom")));
    assert_eq!(m.watchdog_step(), WatchdogDirective::Halt);
    assert_eq!(m.status, SidecarStatus::Error(String::from("boom")));
}

#[test]
fn test_failed_restart_halts_on_next_poll() {
    let mut m = StoreModel::init();
    m.set_status(SidecarStatus::Stopped);
    assert_eq!(m.watchdog_step(), WatchdogDirective::Restart(1));
    // the spawn attempt fails; the loop records the error and keeps polling
    m.set_status(SidecarStatus::Error(String::from(
        "Failed to spawn sidecar: not found",
    )));
    assert_eq!(m.watchdog_step(), WatchdogDirective::Halt);
}

#[test]
fn test_budget_exhaustion_after_repeated_stops() {
    let mut m = StoreModel::init();
    m.set_status(SidecarStatus::Stopped);
    // budget polls, each booking a restart that succeeds and re-stops
    for attempt in 1..=MAX_RESTART_ATTEMPTS {
        assert_eq!(m.watchdog_step(), WatchdogDirective::Restart(attempt));
        assert!(m.restart_count <= MAX_RESTART_ATTEMPTS);
        m.set_status(SidecarStatus::Running); // spawn succeeded
        m.set_status(SidecarStatus::Stopped); // process died again
    }
    assert_eq!(m.restart_count, MAX_RESTART_ATTEMPTS);
    // the (budget + 1)-th observed stop is terminal
    assert_eq!(m.watchdog_step(), WatchdogDirective::GiveUp);
    assert_eq!(m.restart_count, MAX_RESTART_ATTEMPTS);
    assert_eq!(
        m.status,
        SidecarStatus::Error(String::from("Sidecar crashed 3 times, giving up"))
    );
    // terminal: a further poll only halts
    assert_eq!(m.watchdog_step(), WatchdogDirective::Halt);
}

#[test]
fn test_recovery_resets_budget() {
    let mut m = StoreModel::init();
    m.set_status(SidecarStatus::Stopped);
    assert_eq!(m.watchdog_step(), WatchdogDirective::Restart(1));
    m.set_status(SidecarStatus::Stopped);
    assert_eq!(m.watchdog_step(), WatchdogDirective::Restart(2));
    // the restart succeeds and the next poll sees it running
    m.set_status(SidecarStatus::Running);
    m.watchdog_step();
    assert_eq!(m.restart_count, 0);
    // the full budget is available again
    m.set_status(SidecarStatus::Stopped);
    assert_eq!(m.watchdog_step(), WatchdogDirective::Restart(1));
}
