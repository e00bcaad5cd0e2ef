//! The settle gate's question: is the source controller between states?
//! No exchange is requested while it is, so nothing acts inside a
//! transition.

use vstd::prelude::*;

verus! {

/// Where the source editor's lifecycle is.
#[derive(Debug, Clone, Copy, PartialEq, Eq, Structural)]
pub enum LifecycleState {
    Unmounted,
    Ready,
    Unavailable,
    Mounting,
    Initializing,
    SnapshotPending,
    BarrierHeld,
    ResumePending,
    RefreshPending,
    Unmounting,
}

/// The state's name while the controller is between states; none once it
/// has settled.
pub open spec fn unsettled_spec(state: LifecycleState) -> Option<Seq<char>> {
    match state {
        LifecycleState::Unmounted | LifecycleState::Ready | LifecycleState::Unavailable => None,
        LifecycleState::Mounting => Some("Mounting"@),
        LifecycleState::Initializing => Some("Initializing"@),
        LifecycleState::SnapshotPending => Some("SnapshotPending"@),
        LifecycleState::BarrierHeld => Some("BarrierHeld"@),
        LifecycleState::ResumePending => Some("ResumePending"@),
        LifecycleState::RefreshPending => Some("RefreshPending"@),
        LifecycleState::Unmounting => Some("Unmounting"@),
    }
}

/// Every state but a settled one, unconditionally, whether or not a
/// command is queued behind it: a mount with nothing queued is still a
/// mount in flight.
pub fn unsettled_lifecycle_state(state: &LifecycleState) -> (r: Option<String>)
    ensures
        match unsettled_spec(*state) {
            Some(name) => r matches Some(s) && s@ == name,
            None => r is None,
        },
{
    match state {
        LifecycleState::Unmounted | LifecycleState::Ready | LifecycleState::Unavailable => None,
        LifecycleState::Mounting => Some("Mounting".to_owned()),
        LifecycleState::Initializing => Some("Initializing".to_owned()),
        LifecycleState::SnapshotPending => Some("SnapshotPending".to_owned()),
        LifecycleState::BarrierHeld => Some("BarrierHeld".to_owned()),
        LifecycleState::ResumePending => Some("ResumePending".to_owned()),
        LifecycleState::RefreshPending => Some("RefreshPending".to_owned()),
        LifecycleState::Unmounting => Some("Unmounting".to_owned()),
    }
}

} // verus!
