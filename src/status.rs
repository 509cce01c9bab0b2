use vstd::prelude::*;

verus! {

/// Status code of a successful native call.
pub const ESP_OK: i32 = 0;

/// Generic failure status of the native facility.
pub const ESP_FAIL: i32 = -1;

/// Status returned for an argument the facility rejects.
pub const ESP_ERR_INVALID_ARG: i32 = 0x102;

/// Status returned when an operation is not allowed in the current state.
pub const ESP_ERR_INVALID_STATE: i32 = 0x103;

/// Status returned when a bounded wait ran out.
pub const ESP_ERR_TIMEOUT: i32 = 0x107;

/// The event id that matches every event of a source.
pub const ANY_EVENT_ID: i32 = -1;

/// The source filter that matches events of every source (the facility's
/// null base).
pub const ANY_SOURCE: u64 = 0;

/// The recoverable failures of loop creation, subscription and posting.
#[derive(Clone, Copy, Debug, PartialEq, Eq, Structural)]
pub enum EventLoopError {
    /// A singleton loop is already live in this process.
    AlreadyExists,
    /// The native facility rejected the request with this (nonzero) status.
    NativeFailure(i32),
}

impl EventLoopError {
    pub open spec fn spec_code(self) -> i32 {
        match self {
            EventLoopError::AlreadyExists => ESP_ERR_INVALID_STATE,
            EventLoopError::NativeFailure(c) => c,
        }
    }

    /// The native status code that stands for this error.
    pub fn code(&self) -> (r: i32)
        ensures
            r == self.spec_code(),
    {
        match self {
            EventLoopError::AlreadyExists => ESP_ERR_INVALID_STATE,
            EventLoopError::NativeFailure(c) => *c,
        }
    }
}

/// Reads a native status: success exactly when it is `ESP_OK`.
pub fn check_status(status: i32) -> (r: Result<(), EventLoopError>)
    ensures
        status == ESP_OK ==> r == Ok::<(), EventLoopError>(()),
        status != ESP_OK ==> r == Err::<(), EventLoopError>(EventLoopError::NativeFailure(status)),
{
    if status == ESP_OK {
        Ok(())
    } else {
        Err(EventLoopError::NativeFailure(status))
    }
}

pub open spec fn spec_post_outcome(status: i32) -> Result<bool, EventLoopError> {
    if status == ESP_OK {
        Ok(true)
    } else if status == ESP_ERR_TIMEOUT {
        Ok(false)
    } else {
        Err(EventLoopError::NativeFailure(status))
    }
}

pub open spec fn spec_isr_post_outcome(status: i32) -> Result<bool, EventLoopError> {
    if status == ESP_OK {
        Ok(true)
    } else if status == ESP_FAIL {
        Ok(false)
    } else {
        Err(EventLoopError::NativeFailure(status))
    }
}

/// Reads the status of a blocking post: `Ok(true)` when the event was queued,
/// `Ok(false)` when the queue did not take it within the wait (a timeout is
/// backpressure, not an error), and the failure otherwise.
pub fn post_outcome(status: i32) -> (r: Result<bool, EventLoopError>)
    ensures
        r == spec_post_outcome(status),
{
    if status == ESP_ERR_TIMEOUT {
        Ok(false)
    } else {
        match check_status(status) {
            Ok(()) => Ok(true),
            Err(e) => Err(e),
        }
    }
}

/// Reads the status of a post from interrupt context. There the facility
/// reports a full queue with the generic failure status, so that one, and
/// not the timeout status, means the event was declined.
pub fn isr_post_outcome(status: i32) -> (r: Result<bool, EventLoopError>)
    ensures
        r == spec_isr_post_outcome(status),
{
    if status == ESP_FAIL {
        Ok(false)
    } else {
        match check_status(status) {
            Ok(()) => Ok(true),
            Err(e) => Err(e),
        }
    }
}

} // verus!
