use vstd::prelude::*;

use crate::agent::{named_call_error, Agent};
use crate::error::{status_error, NixlError, ERR_INVALID_PARAM, SUCCESS};
use crate::handles::{Backend, MemList, Params, StringList};
use crate::name::{check_name, is_valid_name};

verus! {

impl Agent {
    /// The plugins the engine can instantiate, given what it reported when
    /// asked for them.
    pub fn get_available_plugins(&self, status: i32, plugins: u64) -> (r: Result<
        StringList,
        NixlError,
    >)
        ensures
            r.is_ok() <==> status == SUCCESS,
            r matches Ok(l) ==> l@ == plugins,
            r matches Err(e) ==> e == status_error(status),
    {
        if status == SUCCESS {
            Ok(StringList::from_raw(plugins))
        } else if status == ERR_INVALID_PARAM {
            Err(NixlError::InvalidParam)
        } else {
            Err(NixlError::BackendError)
        }
    }

    /// The memory types and parameters a plugin supports, given what the
    /// engine reported. A name with a terminator character is refused before
    /// the engine is asked.
    pub fn get_plugin_params(&self, plugin_name: &str, status: i32, mems: u64, params: u64) -> (r:
        Result<(MemList, Params), NixlError>)
        ensures
            r.is_ok() <==> is_valid_name(plugin_name@) && status == SUCCESS,
            r matches Ok(p) ==> p.0@ == mems && p.1@ == params,
            r matches Err(e) ==> e == named_call_error(plugin_name@, status),
    {
        match check_name(plugin_name) {
            Err(e) => { return Err(e); },
            Ok(()) => {},
        }
        if status == SUCCESS {
            Ok((MemList::from_raw(mems), Params::new(params)))
        } else if status == ERR_INVALID_PARAM {
            Err(NixlError::InvalidParam)
        } else {
            Err(NixlError::BackendError)
        }
    }

    /// The memory types and parameters of an initialized backend, given what
    /// the engine reported. Every failure is a backend error.
    pub fn get_backend_params(&self, backend: &Backend, status: i32, mems: u64, params: u64) -> (r:
        Result<(MemList, Params), NixlError>)
        ensures
            r.is_ok() <==> status == SUCCESS,
            r matches Ok(p) ==> p.0@ == mems && p.1@ == params,
            r matches Err(e) ==> e == NixlError::BackendError,
    {
        if status != SUCCESS {
            return Err(NixlError::BackendError);
        }
        Ok((MemList::from_raw(mems), Params::new(params)))
    }
}

} // verus!
