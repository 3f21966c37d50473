//! The heartbeat loop's decisions: what a heartbeat answer means for the
//! agent's life, and the token it carries.
use vstd::prelude::*;

verus! {

/// The device's standing as a heartbeat answer reports it, after the
/// transport has decoded the wire value; an undecodable value is handed
/// in as nothing.
#[derive(Clone, Copy, Debug, PartialEq, Eq, Structural)]
pub enum DeviceStanding {
    Archived,
    Deleted,
    Active,
}

/// What the heartbeat loop must do after an answer.
#[derive(Clone, Copy, Debug, PartialEq, Eq, Structural)]
pub enum HeartbeatDirective {
    /// The device was archived or deleted: stop running.
    Abort,
    /// Keep the loop alive.
    Continue,
    /// The wire value was unknown: report it and keep the loop alive.
    ReportUnknown,
}

/// Decides one heartbeat answer: an archived or deleted device aborts
/// execution; anything else continues, an unknown standing with a
/// report.
pub fn handle_hb_response(standing: Option<DeviceStanding>) -> (d: HeartbeatDirective)
    ensures
        d == match standing {
            Some(DeviceStanding::Archived) => HeartbeatDirective::Abort,
            Some(DeviceStanding::Deleted) => HeartbeatDirective::Abort,
            Some(DeviceStanding::Active) => HeartbeatDirective::Continue,
            None => HeartbeatDirective::ReportUnknown,
        },
{
    match standing {
        Some(DeviceStanding::Archived) => HeartbeatDirective::Abort,
        Some(DeviceStanding::Deleted) => HeartbeatDirective::Abort,
        Some(DeviceStanding::Active) => HeartbeatDirective::Continue,
        None => HeartbeatDirective::ReportUnknown,
    }
}

} // verus!
