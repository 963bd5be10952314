//! Supervisor status and its UI-facing classification.
//!
//! The supervisor's status is exactly one of four values.  For the
//! presentation layer an `Error` reason is classified further by
//! case-insensitive substring rules (ASCII case folding), first match wins:
//! a reason naming `admin`, `access denied` or `permission` requires
//! elevation; otherwise one naming `not found` or `binary` means the
//! executable is missing; anything else passes through unchanged.

use crate::text::ci_contains;
use crate::text::contains_ci;
use vstd::prelude::*;

verus! {

/// Status of the supervised sidecar process.
#[derive(Debug)]
pub enum SidecarStatus {
    /// Not started yet.
    NotStarted,
    /// Running normally.
    Running,
    /// Stopped (crashed or terminated).
    Stopped,
    /// A failure, with its reason (for example missing admin rights).
    Error(String),
}

/// Mathematical image of a status.
pub enum StatusView {
    NotStarted,
    Running,
    Stopped,
    Error(Seq<char>),
}

impl View for SidecarStatus {
    type V = StatusView;

    open spec fn view(&self) -> StatusView {
        match self {
            SidecarStatus::NotStarted => StatusView::NotStarted,
            SidecarStatus::Running => StatusView::Running,
            SidecarStatus::Stopped => StatusView::Stopped,
            SidecarStatus::Error(m) => StatusView::Error(m@),
        }
    }
}

impl SidecarStatus {
    /// A fresh value with the same image.
    pub fn duplicate(&self) -> (r: SidecarStatus)
        ensures
            r@ == self@,
    {
        match self {
            SidecarStatus::NotStarted => SidecarStatus::NotStarted,
            SidecarStatus::Running => SidecarStatus::Running,
            SidecarStatus::Stopped => SidecarStatus::Stopped,
            SidecarStatus::Error(m) => SidecarStatus::Error(m.clone()),
        }
    }

    /// The status is `Running`.
    pub fn is_running(&self) -> (r: bool)
        ensures
            r == (self@ is Running),
    {
        match self {
            SidecarStatus::Running => true,
            _ => false,
        }
    }
}

impl PartialEq for SidecarStatus {
    fn eq(&self, other: &Self) -> (r: bool) {
        match (self, other) {
            (SidecarStatus::NotStarted, SidecarStatus::NotStarted) => true,
            (SidecarStatus::Running, SidecarStatus::Running) => true,
            (SidecarStatus::Stopped, SidecarStatus::Stopped) => true,
            (SidecarStatus::Error(a), SidecarStatus::Error(b)) => *a == *b,
            _ => false,
        }
    }
}

impl Eq for SidecarStatus {}

impl vstd::std_specs::cmp::PartialEqSpecImpl for SidecarStatus {
    open spec fn obeys_eq_spec() -> bool {
        true
    }

    open spec fn eq_spec(&self, other: &Self) -> bool {
        self@ == other@
    }
}

/// Status as shown to the presentation layer: the four statuses, with an
/// `Error` reason classified into the two recognised failure causes where
/// its wording names one.
#[derive(Debug)]
pub enum SidecarStatusInfo {
    NotStarted,
    Running,
    Stopped,
    /// A failure whose reason matched no recognised cause.
    Error(String),
    /// The failure wording names missing elevation.
    RequiresAdmin,
    /// The failure wording names a missing executable.
    BinaryNotFound,
}

/// Mathematical image of a classified status.
pub enum StatusInfoView {
    NotStarted,
    Running,
    Stopped,
    Error(Seq<char>),
    RequiresAdmin,
    BinaryNotFound,
}

impl View for SidecarStatusInfo {
    type V = StatusInfoView;

    open spec fn view(&self) -> StatusInfoView {
        match self {
            SidecarStatusInfo::NotStarted => StatusInfoView::NotStarted,
            SidecarStatusInfo::Running => StatusInfoView::Running,
            SidecarStatusInfo::Stopped => StatusInfoView::Stopped,
            SidecarStatusInfo::Error(m) => StatusInfoView::Error(m@),
            SidecarStatusInfo::RequiresAdmin => StatusInfoView::RequiresAdmin,
            SidecarStatusInfo::BinaryNotFound => StatusInfoView::BinaryNotFound,
        }
    }
}

impl PartialEq for SidecarStatusInfo {
    fn eq(&self, other: &Self) -> (r: bool) {
        match (self, other) {
            (SidecarStatusInfo::NotStarted, SidecarStatusInfo::NotStarted) => true,
            (SidecarStatusInfo::Running, SidecarStatusInfo::Running) => true,
            (SidecarStatusInfo::Stopped, SidecarStatusInfo::Stopped) => true,
            (SidecarStatusInfo::Error(a), SidecarStatusInfo::Error(b)) => *a == *b,
            (SidecarStatusInfo::RequiresAdmin, SidecarStatusInfo::RequiresAdmin) => true,
            (SidecarStatusInfo::BinaryNotFound, SidecarStatusInfo::BinaryNotFound) => true,
            _ => false,
        }
    }
}

impl Eq for SidecarStatusInfo {}

impl vstd::std_specs::cmp::PartialEqSpecImpl for SidecarStatusInfo {
    open spec fn obeys_eq_spec() -> bool {
        true
    }

    open spec fn eq_spec(&self, other: &Self) -> bool {
        self@ == other@
    }
}

/// Classification of a failure reason, first match wins.
pub open spec fn spec_classify(reason: Seq<char>) -> StatusInfoView {
    if ci_contains(reason, "admin"@) || ci_contains(reason, "access denied"@)
        || ci_contains(reason, "permission"@) {
        StatusInfoView::RequiresAdmin
    } else if ci_contains(reason, "not found"@) || ci_contains(reason, "binary"@) {
        StatusInfoView::BinaryNotFound
    } else {
        StatusInfoView::Error(reason)
    }
}

/// Classifies a failure reason by its wording.
pub fn classify(reason: &str) -> (r: SidecarStatusInfo)
    ensures
        r@ == spec_classify(reason@),
{
    if contains_ci(reason, "admin") || contains_ci(reason, "access denied")
        || contains_ci(reason, "permission") {
        SidecarStatusInfo::RequiresAdmin
    } else if contains_ci(reason, "not found") || contains_ci(reason, "binary") {
        SidecarStatusInfo::BinaryNotFound
    } else {
        SidecarStatusInfo::Error(String::from_str(reason))
    }
}

/// The classified image of a status: the three plain statuses map one to
/// one; an `Error` reason is classified by [`spec_classify`].
pub open spec fn spec_status_info(s: StatusView) -> StatusInfoView {
    match s {
        StatusView::NotStarted => StatusInfoView::NotStarted,
        StatusView::Running => StatusInfoView::Running,
        StatusView::Stopped => StatusInfoView::Stopped,
        StatusView::Error(m) => spec_classify(m),
    }
}

impl SidecarStatusInfo {
    /// Classified image of a status.
    pub fn of_status(status: &SidecarStatus) -> (r: SidecarStatusInfo)
        ensures
            r@ == spec_status_info(status@),
    {
        match status {
            SidecarStatus::NotStarted => SidecarStatusInfo::NotStarted,
            SidecarStatus::Running => SidecarStatusInfo::Running,
            SidecarStatus::Stopped => SidecarStatusInfo::Stopped,
            SidecarStatus::Error(m) => classify(m.as_str()),
        }
    }
}

} // verus!
