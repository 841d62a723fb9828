use vstd::prelude::*;

use crate::agent::{Agent, AgentModel};
use crate::error::{status_error, status_outcome, status_result, NixlError, SUCCESS};
use crate::name::{check_name, is_valid_name};

verus! {

/// What a request for a metadata blob reports: the blob on success, an
/// invalid data pointer when the engine reported success without a buffer,
/// and the mapped status otherwise.
pub open spec fn md_outcome(status: i32, data: Option<Vec<u8>>) -> Result<Vec<u8>, NixlError> {
    if status == SUCCESS {
        match data {
            Some(d) => Ok(d),
            None => Err(NixlError::InvalidDataPointer),
        }
    } else {
        Err(status_error(status))
    }
}

/// Whether a check reports the metadata of `remote_agent` available, when
/// the engine answered it with `status`.
pub open spec fn remote_md_available(remote_agent: Seq<char>, status: i32) -> bool {
    is_valid_name(remote_agent) && status == SUCCESS
}

/// Metadata round trip: when an agent loads metadata that names peer `peer`,
/// the peer joins its loaded remotes, so invalidating it goes through; and a
/// check for that peer reports it available whenever the engine confirms it.
/// The peer's name must be one that can be handed to the engine.
pub proof fn lemma_metadata_round_trip(a: AgentModel, peer: Seq<char>)
    requires
        is_valid_name(peer),
    ensures
        a.with_remotes(a.remotes.insert(peer)).remotes.contains(peer),
        remote_md_available(peer, SUCCESS),
{
}

fn md_result(status: i32, data: Option<Vec<u8>>) -> (r: Result<Vec<u8>, NixlError>)
    ensures
        r == md_outcome(status, data),
{
    match status_result(status) {
        Err(e) => Err(e),
        Ok(()) => match data {
            Some(d) => Ok(d),
            None => Err(NixlError::InvalidDataPointer),
        },
    }
}

impl Agent {
    /// This agent's metadata, given what the engine reported: the status and
    /// a copy of the buffer it returned, absent if the buffer was null.
    pub fn get_local_md(&self, status: i32, data: Option<Vec<u8>>) -> (r: Result<
        Vec<u8>,
        NixlError,
    >)
        ensures
            r == md_outcome(status, data),
    {
        md_result(status, data)
    }

    /// The metadata of some registered regions of this agent, given what the
    /// engine reported, as for `get_local_md`.
    pub fn get_local_partial_md(&self, status: i32, data: Option<Vec<u8>>) -> (r: Result<
        Vec<u8>,
        NixlError,
    >)
        ensures
            r == md_outcome(status, data),
    {
        md_result(status, data)
    }

    /// The outcome of publishing this agent's metadata to the directory.
    pub fn send_local_md(&self, status: i32) -> (r: Result<(), NixlError>)
        ensures
            r == status_outcome(status),
    {
        status_result(status)
    }

    /// The outcome of publishing part of this agent's metadata to the directory.
    pub fn send_local_partial_md(&self, status: i32) -> (r: Result<(), NixlError>)
        ensures
            r == status_outcome(status),
    {
        status_result(status)
    }

    /// The outcome of removing this agent's entry from the directory.
    pub fn invalidate_local_md(&self, status: i32) -> (r: Result<(), NixlError>)
        ensures
            r == status_outcome(status),
    {
        status_result(status)
    }

    /// Whether the metadata of `remote_agent` is available, given the status
    /// the engine reported for the check. A name with a terminator character
    /// is never available, and the engine is then not asked.
    pub fn check_remote_metadata(&self, remote_agent: &str, status: i32) -> (r: bool)
        ensures
            r == remote_md_available(remote_agent@, status),
    {
        match check_name(remote_agent) {
            Err(_) => false,
            Ok(()) => status == SUCCESS,
        }
    }
}

} // verus!
