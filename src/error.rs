use vstd::prelude::*;

verus! {

/// Status code the engine reports for a completed call.
pub const SUCCESS: i32 = 0;

/// Status code the engine reports for an operation that is still running.
pub const IN_PROG: i32 = 1;

/// Status code the engine reports for a rejected argument.
pub const ERR_INVALID_PARAM: i32 = -1;

/// The closed set of failures an agent operation can report.
#[derive(Debug, Clone, Copy, PartialEq, Eq, Structural)]
pub enum NixlError {
    InvalidParam,
    BackendError,
    InvalidDataPointer,
    FailedToCreateXferRequest,
    FailedToCreateBackend,
}

/// The error a failed engine status stands for.
pub open spec fn status_error(status: i32) -> NixlError {
    if status == ERR_INVALID_PARAM {
        NixlError::InvalidParam
    } else {
        NixlError::BackendError
    }
}

/// What an operation reports for an engine status, under the standard mapping.
pub open spec fn status_outcome(status: i32) -> Result<(), NixlError> {
    if status == SUCCESS {
        Ok(())
    } else {
        Err(status_error(status))
    }
}

/// Maps an engine status code to a result: success, a rejected argument, or
/// any other engine failure.
pub fn status_result(status: i32) -> (r: Result<(), NixlError>)
    ensures
        r == status_outcome(status),
{
    if status == SUCCESS {
        Ok(())
    } else if status == ERR_INVALID_PARAM {
        Err(NixlError::InvalidParam)
    } else {
        Err(NixlError::BackendError)
    }
}

} // verus!
