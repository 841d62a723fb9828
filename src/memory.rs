use vstd::prelude::*;

use crate::agent::Agent;
use crate::error::{status_error, status_result, NixlError, SUCCESS};
use crate::handles::{MemDescriptor, QueryResponseList, RegistrationHandle};

verus! {

impl Agent {
    /// Registers one region. `dlist` is the outcome of building the
    /// single-entry registration list for it; the engine's answer to the
    /// registration itself is not surfaced. The handle records the region as
    /// described and the agent it belongs to.
    pub fn register_memory(&self, descriptor: &MemDescriptor, dlist: Result<(), NixlError>) -> (r:
        Result<RegistrationHandle, NixlError>)
        ensures
            r.is_ok() <==> dlist.is_ok(),
            r matches Ok(h) ==> h@ == (self@.handle, *descriptor),
            r matches Err(e) ==> dlist == Err::<(), NixlError>(e),
    {
        match dlist {
            Err(e) => Err(e),
            Ok(()) => Ok(RegistrationHandle::new(self.native_handle(), *descriptor)),
        }
    }

    /// Answers a memory query, given the response list the engine filled and
    /// the status it reported. Only the engine can reject an argument here.
    pub fn query_mem(&self, resp: QueryResponseList, status: i32) -> (r: Result<
        QueryResponseList,
        NixlError,
    >)
        ensures
            r.is_ok() <==> status == SUCCESS,
            r matches Ok(l) ==> l == resp,
            r matches Err(e) ==> e == status_error(status),
    {
        match status_result(status) {
            Ok(()) => Ok(resp),
            Err(e) => Err(e),
        }
    }
}

} // verus!
