use vstd::prelude::*;

verus! {

/// The native calls that a step of a protocol can fail on.
#[derive(Clone, Copy, Debug, PartialEq, Eq, Structural)]
pub enum NativeStep {
    MapClientEventToSimEvent,
    AddClientEventToNotificationGroup,
    SetNotificationGroupPriority,
    TransmitClientEvent,
    SubscribeToSystemEvent,
    UnsubscribeFromSystemEvent,
    RequestFacilitiesList,
    SubscribeToFacilities,
    UnsubscribeToFacilities,
}

/// Errors of a session.
#[derive(Clone, Debug)]
pub enum SimConnectError {
    /// The category (carried here by its key) already holds a live request id.
    ObjectAlreadyRegistered(String),
    /// The native service answered the given step with the given status code.
    NativeCallRejected(NativeStep, i32),
    /// The session handle cannot be used.
    HandleInvalid,
}

/// The native service accepts a call by answering `S_OK`.
pub open spec fn is_success(status: i32) -> bool {
    status == 0
}

/// What a status code returned by `step` means to the caller.
pub open spec fn status_result(step: NativeStep, status: i32) -> Result<(), SimConnectError> {
    if is_success(status) {
        Ok(())
    } else {
        Err(SimConnectError::NativeCallRejected(step, status))
    }
}

/// Translates the status code that the native service returned for `step`.
pub fn check_status(step: NativeStep, status: i32) -> (r: Result<(), SimConnectError>)
    ensures
        r == status_result(step, status),
{
    if status == 0 {
        Ok(())
    } else {
        Err(SimConnectError::NativeCallRejected(step, status))
    }
}

} // verus!
