use sidecar_supervisor::status::{SidecarStatus, SidecarStatusInfo, classify};

#[test]
fn test_classify_access_denied() {
    assert_eq!(classify("Access denied"), SidecarStatusInfo::RequiresAdmin);
}

#[test]
fn test_classify_binary_not_found() {
    assert_eq!(classify("binary not found at /x"), SidecarStatusInfo::BinaryNotFound);
}

#[test]
fn test_classify_generic() {
    assert_eq!(
        classify("disk full"),
        SidecarStatusInfo::Error(String::from("disk full"))
    );
}

#[test]
fn test_classify_is_case_insensitive() {
    assert_eq!(classify("REQUIRES ADMIN RIGHTS"), SidecarStatusInfo::RequiresAdmin);
    assert_eq!(classify("Permission denied"), SidecarStatusInfo::RequiresAdmin);
    assert_eq!(classify("Binary Not Found"), SidecarStatusInfo::BinaryNotFound);
}

#[test]
fn test_classify_first_match_wins() {
    // names both an admin failure and a missing binary: admin wins
    assert_eq!(
        classify("admin needed, binary not found"),
        SidecarStatusInfo::RequiresAdmin
    );
}

#[test]
fn test_classify_empty_reason_is_generic() {
    assert_eq!(classify(""), SidecarStatusInfo::Error(String::new()));
}

#[test]
fn test_status_info_passes_plain_statuses_through() {
    assert_eq!(
        SidecarStatusInfo::of_status(&SidecarStatus::NotStarted),
        SidecarStatusInfo::NotStarted
    );
    assert_eq!(
        SidecarStatusInfo::of_status(&SidecarStatus::Running),
        SidecarStatusInfo::Running
    );
    assert_eq!(
        SidecarStatusInfo::of_status(&SidecarStatus::Stopped),
        SidecarStatusInfo::Stopped
    );
    assert_eq!(
        SidecarStatusInfo::of_status(&SidecarStatus::Error(String::from("disk full"))),
        SidecarStatusInfo::Error(String::from("disk full"))
    );
}
