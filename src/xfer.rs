use vstd::prelude::*;

use crate::agent::{named_call_error, Agent};
use crate::error::{status_error, NixlError, ERR_INVALID_PARAM, IN_PROG, SUCCESS};
use crate::handles::{cost_method_of, Backend, CostMethod, XferDlistHandle};
use crate::name::{check_name, is_valid_name};

verus! {

/// Completion state reported for a posted transfer request.
#[derive(Debug, Clone, Copy, PartialEq, Eq, Structural)]
pub enum XferStatus {
    Success,
    InProgress,
}

impl XferStatus {
    /// Whether the transfer has completed.
    pub fn is_success(&self) -> (r: bool)
        ensures
            r == (*self == XferStatus::Success),
    {
        *self == XferStatus::Success
    }
}

/// Where a transfer request stands: created and not yet known to run, posted
/// and running, or complete. Completion is terminal for polling.
#[derive(Debug, Clone, Copy, PartialEq, Eq, Structural)]
pub enum XferPhase {
    Created,
    InProgress,
    Complete,
}

/// One read or write between local and remote descriptors.
#[derive(Debug, Clone, Copy, PartialEq, Eq, Structural)]
pub struct XferRequest {
    handle: u64,
    phase: XferPhase,
}

impl View for XferRequest {
    type V = (u64, XferPhase);

    closed spec fn view(&self) -> (u64, XferPhase) {
        (self.handle, self.phase)
    }
}

impl XferRequest {
    /// The native handle of the request, never null.
    pub fn raw(&self) -> (r: u64)
        ensures
            r == self@.0,
    {
        self.handle
    }

    /// Where the request stands.
    pub fn phase(&self) -> (r: XferPhase)
        ensures
            r == self@.1,
    {
        self.phase
    }
}

/// What posting a request reports: `false` when the transfer completed
/// within the call, `true` when it is running.
pub open spec fn post_outcome(status: i32) -> Result<bool, NixlError> {
    if status == SUCCESS {
        Ok(false)
    } else if status == IN_PROG {
        Ok(true)
    } else {
        Err(status_error(status))
    }
}

/// Where a request stands after a post the engine answered with `status`.
pub open spec fn phase_after_post(phase: XferPhase, status: i32) -> XferPhase {
    if status == SUCCESS {
        XferPhase::Complete
    } else if status == IN_PROG {
        XferPhase::InProgress
    } else {
        phase
    }
}

/// What polling a request reports. A request already seen complete is not
/// reported in progress again; engine failures are mapped as usual.
pub open spec fn poll_outcome(phase: XferPhase, status: i32) -> Result<XferStatus, NixlError> {
    if status == SUCCESS || (phase == XferPhase::Complete && status == IN_PROG) {
        Ok(XferStatus::Success)
    } else if status == IN_PROG {
        Ok(XferStatus::InProgress)
    } else {
        Err(status_error(status))
    }
}

/// Where a request stands after a poll the engine answered with `status`.
pub open spec fn phase_after_poll(phase: XferPhase, status: i32) -> XferPhase {
    if phase == XferPhase::Complete || status == SUCCESS {
        XferPhase::Complete
    } else if status == IN_PROG {
        XferPhase::InProgress
    } else {
        phase
    }
}

/// The reports of successive polls of a request that starts in `phase`,
/// when the engine answers them with `statuses` in turn.
pub open spec fn poll_results(phase: XferPhase, statuses: Seq<i32>) -> Seq<
    Result<XferStatus, NixlError>,
>
    decreases statuses.len(),
{
    if statuses.len() == 0 {
        Seq::empty()
    } else {
        seq![poll_outcome(phase, statuses[0])] + poll_results(
            phase_after_poll(phase, statuses[0]),
            statuses.drop_first(),
        )
    }
}

proof fn lemma_poll_results_len(phase: XferPhase, statuses: Seq<i32>)
    ensures
        poll_results(phase, statuses).len() == statuses.len(),
    decreases statuses.len(),
{
    if statuses.len() > 0 {
        lemma_poll_results_len(phase_after_poll(phase, statuses[0]), statuses.drop_first());
    }
}

proof fn lemma_complete_polls(statuses: Seq<i32>, j: int)
    requires
        0 <= j < statuses.len(),
    ensures
        poll_results(XferPhase::Complete, statuses)[j] != Ok::<XferStatus, NixlError>(
            XferStatus::InProgress,
        ),
    decreases statuses.len(),
{
    let rest = poll_results(XferPhase::Complete, statuses.drop_first());
    lemma_poll_results_len(XferPhase::Complete, statuses.drop_first());
    if j > 0 {
        lemma_complete_polls(statuses.drop_first(), j - 1);
        assert(poll_results(XferPhase::Complete, statuses)[j] == rest[j - 1]);
    }
}

/// Success is terminal: once a poll of a request has reported success, no
/// later poll of it reports the transfer in progress, whatever the engine
/// answers; a later engine failure is still reported as that failure.
pub proof fn lemma_success_is_terminal(phase: XferPhase, statuses: Seq<i32>, i: int, j: int)
    requires
        0 <= i < j < statuses.len(),
        poll_results(phase, statuses)[i] == Ok::<XferStatus, NixlError>(XferStatus::Success),
    ensures
        poll_results(phase, statuses)[j] != Ok::<XferStatus, NixlError>(XferStatus::InProgress),
    decreases statuses.len(),
{
    let next = phase_after_poll(phase, statuses[0]);
    let rest = poll_results(next, statuses.drop_first());
    lemma_poll_results_len(next, statuses.drop_first());
    assert(poll_results(phase, statuses)[j] == rest[j - 1]);
    if i == 0 {
        assert(next == XferPhase::Complete);
        lemma_complete_polls(statuses.drop_first(), j - 1);
    } else {
        assert(poll_results(phase, statuses)[i] == rest[i - 1]);
        lemma_success_is_terminal(next, statuses.drop_first(), i - 1, j - 1);
    }
}

/// The request a successful creation call yields, or the error it reports.
/// A null handle reported with success is a failure to create the request.
pub open spec fn request_outcome(status: i32, req: u64) -> Result<u64, NixlError> {
    if status == SUCCESS {
        if req != 0 {
            Ok(req)
        } else {
            Err(NixlError::FailedToCreateXferRequest)
        }
    } else {
        Err(status_error(status))
    }
}

fn request_result(status: i32, req: u64) -> (r: Result<XferRequest, NixlError>)
    ensures
        match request_outcome(status, req) {
            Ok(h) => r == Ok::<XferRequest, NixlError>(XferRequest { handle: h, phase: XferPhase::Created }),
            Err(e) => r == Err::<XferRequest, NixlError>(e),
        },
{
    if status == SUCCESS {
        if req != 0 {
            Ok(XferRequest { handle: req, phase: XferPhase::Created })
        } else {
            Err(NixlError::FailedToCreateXferRequest)
        }
    } else if status == ERR_INVALID_PARAM {
        Err(NixlError::InvalidParam)
    } else {
        Err(NixlError::BackendError)
    }
}

impl Agent {
    /// The descriptor list the engine prepared for peer `agent_name`, given
    /// what it reported. A name with a terminator character is refused before
    /// the engine is asked; engine failures follow the standard mapping.
    pub fn prepare_xfer_dlist(&self, agent_name: &str, status: i32, dlist: u64) -> (r: Result<
        XferDlistHandle,
        NixlError,
    >)
        ensures
            r.is_ok() <==> is_valid_name(agent_name@) && status == SUCCESS,
            r matches Ok(d) ==> d@ == (dlist, self@.handle),
            r matches Err(e) ==> e == named_call_error(agent_name@, status),
    {
        match check_name(agent_name) {
            Err(e) => { return Err(e); },
            Ok(()) => {},
        }
        if status == SUCCESS {
            Ok(XferDlistHandle::new(dlist, self.native_handle()))
        } else if status == ERR_INVALID_PARAM {
            Err(NixlError::InvalidParam)
        } else {
            Err(NixlError::BackendError)
        }
    }

    /// The request the engine made from entries of two prepared lists, given
    /// what it reported. The request starts out created.
    pub fn make_xfer_req(&self, status: i32, req: u64) -> (r: Result<XferRequest, NixlError>)
        ensures
            r.is_ok() <==> request_outcome(status, req).is_ok(),
            r matches Ok(x) ==> request_outcome(status, req) == Ok::<u64, NixlError>(x@.0)
                && x@.1 == XferPhase::Created,
            r matches Err(e) ==> request_outcome(status, req) == Err::<u64, NixlError>(e),
    {
        request_result(status, req)
    }

    /// The request the engine made from two descriptor lists for peer
    /// `remote_agent`, given what it reported. A name with a terminator
    /// character is refused before the engine is asked.
    pub fn create_xfer_req(&self, remote_agent: &str, status: i32, req: u64) -> (r: Result<
        XferRequest,
        NixlError,
    >)
        ensures
            r.is_ok() <==> is_valid_name(remote_agent@) && request_outcome(status, req).is_ok(),
            r matches Ok(x) ==> request_outcome(status, req) == Ok::<u64, NixlError>(x@.0)
                && x@.1 == XferPhase::Created,
            r matches Err(e) ==> if is_valid_name(remote_agent@) {
                request_outcome(status, req) == Err::<u64, NixlError>(e)
            } else {
                e == NixlError::InvalidParam
            },
    {
        match check_name(remote_agent) {
            Err(e) => { return Err(e); },
            Ok(()) => {},
        }
        request_result(status, req)
    }

    /// The engine's estimate for a request: duration and error margin in
    /// microseconds, and how it was estimated.
    pub fn estimate_xfer_cost(&self, status: i32, duration_us: i64, err_margin_us: i64, method: u32) -> (r:
        Result<(i64, i64, CostMethod), NixlError>)
        ensures
            r.is_ok() <==> status == SUCCESS,
            r matches Ok(c) ==> c == (duration_us, err_margin_us, cost_method_of(method)),
            r matches Err(e) ==> e == status_error(status),
    {
        if status == SUCCESS {
            Ok((duration_us, err_margin_us, CostMethod::from_code(method)))
        } else if status == ERR_INVALID_PARAM {
            Err(NixlError::InvalidParam)
        } else {
            Err(NixlError::BackendError)
        }
    }

    /// Records that `req` was posted and the engine answered `status`:
    /// `false` when the transfer already completed, `true` when it runs.
    pub fn post_xfer_req(&self, req: &mut XferRequest, status: i32) -> (r: Result<bool, NixlError>)
        ensures
            r == post_outcome(status),
            final(req)@ == (old(req)@.0, phase_after_post(old(req)@.1, status)),
    {
        if status == SUCCESS {
            req.phase = XferPhase::Complete;
            Ok(false)
        } else if status == IN_PROG {
            req.phase = XferPhase::InProgress;
            Ok(true)
        } else if status == ERR_INVALID_PARAM {
            Err(NixlError::InvalidParam)
        } else {
            Err(NixlError::BackendError)
        }
    }

    /// Records a poll of `req` that the engine answered with `status`. A
    /// request already seen complete stays complete: an in-progress answer
    /// then still reports success, while engine failures are reported.
    pub fn get_xfer_status(&self, req: &mut XferRequest, status: i32) -> (r: Result<
        XferStatus,
        NixlError,
    >)
        ensures
            r == poll_outcome(old(req)@.1, status),
            final(req)@ == (old(req)@.0, phase_after_poll(old(req)@.1, status)),
    {
        if status == SUCCESS || (req.phase == XferPhase::Complete && status == IN_PROG) {
            req.phase = XferPhase::Complete;
            Ok(XferStatus::Success)
        } else if status == IN_PROG {
            req.phase = XferPhase::InProgress;
            Ok(XferStatus::InProgress)
        } else if status == ERR_INVALID_PARAM {
            Err(NixlError::InvalidParam)
        } else {
            Err(NixlError::BackendError)
        }
    }

    /// The backend servicing a posted request, given what the engine
    /// reported. A null handle reported with success is a failure to obtain
    /// the backend.
    pub fn query_xfer_backend(&self, status: i32, backend: u64) -> (r: Result<Backend, NixlError>)
        ensures
            r.is_ok() <==> status == SUCCESS && backend != 0,
            r matches Ok(b) ==> b@ == backend,
            r matches Err(e) ==> e == (if status == SUCCESS {
                NixlError::FailedToCreateBackend
            } else {
                status_error(status)
            }),
    {
        if status == SUCCESS {
            if backend != 0 {
                Ok(Backend::from_raw(backend))
            } else {
                Err(NixlError::FailedToCreateBackend)
            }
        } else if status == ERR_INVALID_PARAM {
            Err(NixlError::InvalidParam)
        } else {
            Err(NixlError::BackendError)
        }
    }
}

} // verus!
