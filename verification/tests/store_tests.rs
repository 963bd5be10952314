use sidecar_supervisor::data::{SidecarCpuData, SidecarData};
use sidecar_supervisor::milli::Milli;
use sidecar_supervisor::model::IngestOutcome;
use sidecar_supervisor::status::{SidecarStatus, SidecarStatusInfo};
use sidecar_supervisor::store::SidecarState;

fn cpu_block(temp: Option<Milli>) -> SidecarCpuData {
    SidecarCpuData {
        name: None,
        temperature: temp,
        package_temperature: None,
        core_temperatures: Vec::new(),
        max_temperature: None,
        power: None,
        core_powers: Vec::new(),
    }
}

#[test]
fn test_sidecar_state() {
    let state = SidecarState::new();
    assert!(state.get_data().is_none());
    assert_eq!(state.get_status(), SidecarStatus::NotStarted);
}

#[test]
fn test_set_data_with_error_surfaces_status() {
    let state = SidecarState::new();
    let data = SidecarData {
        cpu: Some(cpu_block(Some(Milli(65_000)))),
        gpu: Vec::new(),
        timestamp: 1,
        error: Some(String::from("Admin rights required")),
    };
    state.set_data(data);
    assert_eq!(
        state.get_status(),
        SidecarStatus::Error(String::from("Admin rights required"))
    );
    // the rest of the snapshot is still stored as data
    let stored = state.get_data().unwrap();
    assert_eq!(stored.cpu.unwrap().temperature, Some(Milli(65_000)));
}

#[test]
fn test_error_line_sets_status_and_keeps_fields() {
    let state = SidecarState::new();
    let line = r#"{"cpu":{"temperature":65.0},"gpu":[],"timestamp":1234567890,"error":"Admin rights required"}"#;
    assert_eq!(state.ingest_line(line), IngestOutcome::Accepted);
    assert_eq!(
        state.get_status(),
        SidecarStatus::Error(String::from("Admin rights required"))
    );
    assert_eq!(state.get_cpu_temperature(), Some(Milli(65_000)));
}

#[test]
fn test_malformed_line_between_two_valid_lines() {
    let state = SidecarState::new();
    assert_eq!(
        state.ingest_line(r#"{"cpu":{"temperature":50.0},"timestamp":1000}"#),
        IngestOutcome::Accepted
    );
    assert_eq!(
        state.ingest_line(r#"{"cpu":{"temperature":51.0,"timestamp"#),
        IngestOutcome::Malformed
    );
    // the malformed line changed nothing
    assert_eq!(state.get_cpu_temperature(), Some(Milli(50_000)));
    assert_eq!(state.get_status(), SidecarStatus::Running);
    assert_eq!(
        state.ingest_line(r#"{"cpu":{"temperature":52.0},"timestamp":2000}"#),
        IngestOutcome::Accepted
    );
    let stored = state.get_data().unwrap();
    assert_eq!(stored.cpu.unwrap().temperature, Some(Milli(52_000)));
    assert_eq!(stored.timestamp, 2000);
}

#[test]
fn test_blank_line_is_ignored() {
    let state = SidecarState::new();
    assert_eq!(state.ingest_line("   "), IngestOutcome::Ignored);
    assert!(state.get_data().is_none());
    assert_eq!(state.get_status(), SidecarStatus::NotStarted);
}

#[test]
fn test_accepted_line_sets_running() {
    let state = SidecarState::new();
    state.ingest_line(r#"{"timestamp":1000}"#);
    assert_eq!(state.get_status(), SidecarStatus::Running);
}

#[test]
fn test_restart_counter_is_capped() {
    let state = SidecarState::new();
    assert_eq!(state.get_restart_count(), 0);
    assert!(state.can_restart());
    assert_eq!(state.increment_restart_count(), 1);
    assert_eq!(state.increment_restart_count(), 2);
    assert_eq!(state.increment_restart_count(), 3);
    assert!(!state.can_restart());
    // a further increment never pushes the counter past the budget
    assert_eq!(state.increment_restart_count(), 3);
    assert_eq!(state.get_restart_count(), 3);
    state.reset_restart_count();
    assert_eq!(state.get_restart_count(), 0);
    assert!(state.can_restart());
}

#[test]
fn test_is_stalled_fresh_and_after_data() {
    let state = SidecarState::new();
    // no data ever arrived: not stalled
    assert!(!state.is_stalled());
    state.ingest_line(r#"{"timestamp":1000}"#);
    // data arrived a moment ago: not stalled
    assert!(!state.is_stalled());
}

#[test]
fn test_cpu_accessors() {
    let state = SidecarState::new();
    assert!(state.get_cpu_temperature().is_none());
    assert!(state.get_cpu_power().is_none());
    assert!(state.get_cpu_core_temperatures().is_empty());
    state.ingest_line(
        r#"{"cpu":{"temperature":61.5,"power":28.0,"core_temperatures":[60.0,null]},"timestamp":1000}"#,
    );
    assert_eq!(state.get_cpu_temperature(), Some(Milli(61_500)));
    assert_eq!(state.get_cpu_power(), Some(Milli(28_000)));
    assert_eq!(
        state.get_cpu_core_temperatures(),
        vec![Some(Milli(60_000)), None]
    );
}

#[test]
fn test_status_info_through_store() {
    let state = SidecarState::new();
    assert_eq!(state.get_status_info(), SidecarStatusInfo::NotStarted);
    state.set_status(SidecarStatus::Error(String::from("Access denied")));
    assert_eq!(state.get_status_info(), SidecarStatusInfo::RequiresAdmin);
    state.set_status(SidecarStatus::Stopped);
    assert_eq!(state.get_status_info(), SidecarStatusInfo::Stopped);
}
