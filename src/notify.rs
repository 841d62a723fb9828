use vstd::prelude::*;

use crate::agent::{named_call_error, Agent};
use crate::error::{status_outcome, status_result, NixlError, SUCCESS};
use crate::name::{check_name, is_valid_name};

verus! {

/// What a call that names a peer reports: a name with a terminator character
/// is refused before the engine is asked, else the status is mapped.
pub open spec fn named_call_outcome(name: Seq<char>, status: i32) -> Result<(), NixlError> {
    if is_valid_name(name) && status == SUCCESS {
        Ok(())
    } else {
        Err(named_call_error(name, status))
    }
}

fn named_call_result(name: &str, status: i32) -> (r: Result<(), NixlError>)
    ensures
        r == named_call_outcome(name@, status),
{
    match check_name(name) {
        Err(e) => Err(e),
        Ok(()) => status_result(status),
    }
}

impl Agent {
    /// The outcome of connecting to the peer `remote_agent`.
    pub fn make_connection(&self, remote_agent: &str, status: i32) -> (r: Result<(), NixlError>)
        ensures
            r == named_call_outcome(remote_agent@, status),
    {
        named_call_result(remote_agent, status)
    }

    /// The outcome of sending a notification to the peer `remote_agent`.
    pub fn send_notification(&self, remote_agent: &str, status: i32) -> (r: Result<(), NixlError>)
        ensures
            r == named_call_outcome(remote_agent@, status),
    {
        named_call_result(remote_agent, status)
    }

    /// The outcome of draining received notifications into a caller's map.
    pub fn get_notifications(&self, status: i32) -> (r: Result<(), NixlError>)
        ensures
            r == status_outcome(status),
    {
        status_result(status)
    }
}

} // verus!
