use vstd::prelude::*;

verus! {

/// One instantiated transport plugin, seen through its native handle.
///
/// An agent owns every backend it created; a `Backend` value only borrows it.
#[derive(Debug, Clone, Copy, PartialEq, Eq, Structural)]
pub struct Backend {
    handle: u64,
}

impl View for Backend {
    type V = u64;

    closed spec fn view(&self) -> u64 {
        self.handle
    }
}

impl Backend {
    pub(crate) fn from_raw(handle: u64) -> (r: Backend)
        ensures
            r@ == handle,
    {
        Backend { handle }
    }

    /// Two backend values with the same handle are the same backend.
    pub proof fn lemma_same_handle(a: Backend, b: Backend)
        ensures
            a@ == b@ ==> a == b,
    {
    }

    /// The native handle, never null.
    pub fn raw(&self) -> (r: u64)
        ensures
            r == self@,
    {
        self.handle
    }
}

/// A sequence of plugin names held by the engine.
#[derive(Debug, Clone, Copy, PartialEq, Eq, Structural)]
pub struct StringList {
    handle: u64,
}

impl View for StringList {
    type V = u64;

    closed spec fn view(&self) -> u64 {
        self.handle
    }
}

impl StringList {
    pub(crate) fn from_raw(handle: u64) -> (r: StringList)
        ensures
            r@ == handle,
    {
        StringList { handle }
    }

    /// The native handle.
    pub fn raw(&self) -> (r: u64)
        ensures
            r == self@,
    {
        self.handle
    }
}

/// A list of memory types supported by a plugin or backend.
#[derive(Debug, Clone, Copy, PartialEq, Eq, Structural)]
pub struct MemList {
    handle: u64,
}

impl View for MemList {
    type V = u64;

    closed spec fn view(&self) -> u64 {
        self.handle
    }
}

impl MemList {
    pub(crate) fn from_raw(handle: u64) -> (r: MemList)
        ensures
            r@ == handle,
    {
        MemList { handle }
    }

    /// The native handle.
    pub fn raw(&self) -> (r: u64)
        ensures
            r == self@,
    {
        self.handle
    }
}

/// A parameter bag of a plugin or backend.
#[derive(Debug, Clone, Copy, PartialEq, Eq, Structural)]
pub struct Params {
    handle: u64,
}

impl View for Params {
    type V = u64;

    closed spec fn view(&self) -> u64 {
        self.handle
    }
}

impl Params {
    /// Wraps a parameter bag the caller already holds.
    pub fn new(handle: u64) -> (r: Params)
        ensures
            r@ == handle,
    {
        Params { handle }
    }

    /// The native handle.
    pub fn raw(&self) -> (r: u64)
        ensures
            r == self@,
    {
        self.handle
    }
}

/// The engine's answer to a memory query, one response per queried entry.
#[derive(Debug, Clone, Copy, PartialEq, Eq, Structural)]
pub struct QueryResponseList {
    handle: u64,
}

impl View for QueryResponseList {
    type V = u64;

    closed spec fn view(&self) -> u64 {
        self.handle
    }
}

impl QueryResponseList {
    /// Wraps a response list allocated for a query.
    pub fn new(handle: u64) -> (r: QueryResponseList)
        ensures
            r@ == handle,
    {
        QueryResponseList { handle }
    }

    /// The native handle.
    pub fn raw(&self) -> (r: u64)
        ensures
            r == self@,
    {
        self.handle
    }
}

/// A descriptor list prepared by a backend for one peer.
///
/// It carries the handle of the agent that prepared it, since releasing it is
/// itself an agent operation.
#[derive(Debug, Clone, Copy, PartialEq, Eq, Structural)]
pub struct XferDlistHandle {
    handle: u64,
    agent: u64,
}

impl View for XferDlistHandle {
    type V = (u64, u64);

    closed spec fn view(&self) -> (u64, u64) {
        (self.handle, self.agent)
    }
}

impl XferDlistHandle {
    pub(crate) fn new(handle: u64, agent: u64) -> (r: XferDlistHandle)
        ensures
            r@ == (handle, agent),
    {
        XferDlistHandle { handle, agent }
    }

    /// The native handle of the prepared list.
    pub fn raw(&self) -> (r: u64)
        ensures
            r == self@.0,
    {
        self.handle
    }

    /// The native handle of the agent that prepared the list.
    pub fn agent(&self) -> (r: u64)
        ensures
            r == self@.1,
    {
        self.agent
    }
}

/// Kind of memory or storage a region lives in.
#[derive(Debug, Clone, Copy, PartialEq, Eq, Structural)]
pub enum MemType {
    Dram,
    Vram,
    Block,
    Object,
    File,
    Unknown,
}

/// A memory or storage region as the caller describes it.
#[derive(Debug, Clone, Copy, PartialEq, Eq, Structural)]
pub struct MemDescriptor {
    /// Start address, recorded and never dereferenced.
    pub addr: usize,
    pub size: usize,
    pub dev_id: u64,
    pub mem_type: MemType,
}

/// A region registered with an agent.
#[derive(Debug, Clone, Copy, PartialEq, Eq, Structural)]
pub struct RegistrationHandle {
    agent: u64,
    desc: MemDescriptor,
}

impl View for RegistrationHandle {
    type V = (u64, MemDescriptor);

    closed spec fn view(&self) -> (u64, MemDescriptor) {
        (self.agent, self.desc)
    }
}

impl RegistrationHandle {
    pub(crate) fn new(agent: u64, desc: MemDescriptor) -> (r: RegistrationHandle)
        ensures
            r@ == (agent, desc),
    {
        RegistrationHandle { agent, desc }
    }

    /// Native handle of the agent the region is registered with.
    pub fn agent(&self) -> (r: u64)
        ensures
            r == self@.0,
    {
        self.agent
    }

    pub fn addr(&self) -> (r: usize)
        ensures
            r == self@.1.addr,
    {
        self.desc.addr
    }

    pub fn size(&self) -> (r: usize)
        ensures
            r == self@.1.size,
    {
        self.desc.size
    }

    pub fn dev_id(&self) -> (r: u64)
        ensures
            r == self@.1.dev_id,
    {
        self.desc.dev_id
    }

    pub fn mem_type(&self) -> (r: MemType)
        ensures
            r == self@.1.mem_type,
    {
        self.desc.mem_type
    }
}

/// How the engine arrived at a cost estimate.
#[derive(Debug, Clone, Copy, PartialEq, Eq, Structural)]
pub enum CostMethod {
    AnalyticalBackend,
    Unknown,
}

/// The estimation method an engine code names.
pub open spec fn cost_method_of(code: u32) -> CostMethod {
    if code == 0 {
        CostMethod::AnalyticalBackend
    } else {
        CostMethod::Unknown
    }
}

impl CostMethod {
    /// Decodes the engine's estimation method code.
    pub fn from_code(code: u32) -> (r: CostMethod)
        ensures
            r == cost_method_of(code),
    {
        if code == 0 {
            CostMethod::AnalyticalBackend
        } else {
            CostMethod::Unknown
        }
    }
}

} // verus!
