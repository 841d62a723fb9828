use vstd::prelude::*;

use crate::error::{status_error, NixlError, ERR_INVALID_PARAM, SUCCESS};
use crate::handles::Backend;
use crate::name::{check_name, is_valid_name};

verus! {

/// The registry state of an agent as a mathematical value.
pub struct AgentModel {
    pub name: Seq<char>,
    /// Native handle of the engine's agent.
    pub handle: u64,
    /// Backends created through the agent, by plugin name.
    pub backends: Map<Seq<char>, u64>,
    /// Peers whose metadata is currently loaded.
    pub remotes: Set<Seq<char>>,
}

impl AgentModel {
    /// A freshly created agent: no backends, no peers.
    pub open spec fn fresh(name: Seq<char>, handle: u64) -> AgentModel {
        AgentModel { name, handle, backends: Map::empty(), remotes: Set::empty() }
    }

    pub open spec fn with_backends(self, backends: Map<Seq<char>, u64>) -> AgentModel {
        AgentModel { backends, ..self }
    }

    pub open spec fn with_remotes(self, remotes: Set<Seq<char>>) -> AgentModel {
        AgentModel { remotes, ..self }
    }
}

/// The error of an engine call whose name argument is checked first.
pub open spec fn named_call_error(name: Seq<char>, status: i32) -> NixlError {
    if is_valid_name(name) {
        status_error(status)
    } else {
        NixlError::InvalidParam
    }
}

/// The views of a sequence of strings.
pub open spec fn names_of(v: Seq<String>) -> Seq<Seq<char>> {
    v.map_values(|s: String| s@)
}

/// An agent created under a valid name reports exactly that name, and starts
/// with no backends and no loaded peers.
pub proof fn lemma_new_keeps_name(name: Seq<char>, handle: u64)
    requires
        is_valid_name(name),
    ensures
        AgentModel::fresh(name, handle).name == name,
        AgentModel::fresh(name, handle).backends.is_empty(),
        AgentModel::fresh(name, handle).remotes.is_empty(),
{
    assert(AgentModel::fresh(name, handle).backends.dom() =~= Set::empty());
}

/// Once a backend is recorded under a plugin name, looking that name up finds
/// that very backend, while a name never recorded is still absent.
pub proof fn lemma_backend_lookup(a: AgentModel, plugin: Seq<char>, backend: u64, other: Seq<char>)
    requires
        !a.backends.contains_key(other),
        other != plugin,
    ensures
        a.with_backends(a.backends.insert(plugin, backend)).backends.contains_key(plugin),
        a.with_backends(a.backends.insert(plugin, backend)).backends[plugin] == backend,
        !a.with_backends(a.backends.insert(plugin, backend)).backends.contains_key(other),
{
}

/// One engine call that releasing an agent requires.
#[derive(Debug, PartialEq, Eq)]
pub enum Cleanup {
    /// Invalidate the loaded metadata of the named peer.
    InvalidateRemote(String),
    /// Destroy the backend with this native handle.
    DestroyBackend(u64),
    /// Destroy the agent with this native handle.
    DestroyAgent(u64),
}

impl Cleanup {
    /// Whether this step invalidates the peer named `name`.
    pub open spec fn invalidates(self, name: Seq<char>) -> bool {
        match self {
            Cleanup::InvalidateRemote(n) => n@ == name,
            _ => false,
        }
    }
}

/// The mandated release order of an agent: every loaded peer is invalidated
/// once, then every backend is destroyed once, then the agent itself.
pub open spec fn teardown_order(plan: Seq<Cleanup>, a: AgentModel) -> bool {
    let m = a.remotes.len();
    let n = a.backends.dom().len();
    &&& plan.len() == m + n + 1
    &&& forall|i: int|
        0 <= i < m ==> #[trigger] plan[i] is InvalidateRemote && a.remotes.contains(
            plan[i]->InvalidateRemote_0@,
        )
    &&& forall|k: Seq<char>|
        #![trigger a.remotes.contains(k)]
        a.remotes.contains(k) ==> exists|i: int| 0 <= i < m && plan[i].invalidates(k)
    &&& forall|i: int, j: int|
        0 <= i < j < m ==> plan[i]->InvalidateRemote_0@ != plan[j]->InvalidateRemote_0@
    &&& exists|keys: Seq<Seq<char>>|
        {
            &&& keys.len() == n
            &&& keys.no_duplicates()
            &&& keys.to_set() == a.backends.dom()
            &&& forall|t: int|
                0 <= t < n ==> #[trigger] plan[m + t] == Cleanup::DestroyBackend(a.backends[keys[t]])
        }
    &&& forall|i: int|
        m <= i < m + n ==> #[trigger] plan[i] is DestroyBackend && a.backends.values().contains(
            plan[i]->DestroyBackend_0,
        )
    &&& forall|k: Seq<char>|
        #![trigger a.backends.contains_key(k)]
        a.backends.contains_key(k) ==> exists|i: int|
            m <= i < m + n && plan[i] == Cleanup::DestroyBackend(a.backends[k])
    &&& plan[m + n as int] == Cleanup::DestroyAgent(a.handle)
}

/// The registry state of one agent: its name, its native handle, the backends
/// it owns and the peers whose metadata it has loaded.
///
/// Every operation that talks to the engine is split in two: the caller makes
/// the engine call and hands the reported status and handles to the method
/// here, which decides the result and updates the registry.
pub struct Agent {
    name: String,
    handle: u64,
    backends: Vec<(String, Backend)>,
    remotes: Vec<String>,
    backend_map: Ghost<Map<Seq<char>, u64>>,
    remote_set: Ghost<Set<Seq<char>>>,
}

impl View for Agent {
    type V = AgentModel;

    closed spec fn view(&self) -> AgentModel {
        AgentModel {
            name: self.name@,
            handle: self.handle,
            backends: self.backend_map@,
            remotes: self.remote_set@,
        }
    }
}

spec fn backends_wf(v: Seq<(String, Backend)>, m: Map<Seq<char>, u64>) -> bool {
    &&& forall|i: int, j: int| 0 <= i < j < v.len() ==> v[i].0@ != v[j].0@
    &&& forall|i: int|
        0 <= i < v.len() ==> {
            &&& m.contains_key(#[trigger] v[i].0@)
            &&& m[v[i].0@] == v[i].1@
            &&& v[i].1@ != 0
        }
    &&& forall|k: Seq<char>| #[trigger] m.contains_key(k) ==> exists|i: int| 0 <= i < v.len() && v[i].0@ == k
}

spec fn remotes_wf(v: Seq<String>, s: Set<Seq<char>>) -> bool {
    &&& forall|i: int, j: int| 0 <= i < j < v.len() ==> v[i]@ != v[j]@
    &&& forall|i: int| 0 <= i < v.len() ==> s.contains(#[trigger] v[i]@)
    &&& forall|k: Seq<char>| #[trigger] s.contains(k) ==> exists|i: int| 0 <= i < v.len() && v[i]@ == k
}

impl Agent {
    /// Backend names are unique, remote names are unique, and the ghost
    /// map and set hold exactly what the vectors hold.
    pub closed spec fn wf(&self) -> bool {
        &&& backends_wf(self.backends@, self.backend_map@)
        &&& remotes_wf(self.remotes@, self.remote_set@)
    }

    /// Creates the registry of an agent named `name`, given what the engine
    /// reported when asked to create it. A name with a terminator character is
    /// refused before the engine is asked.
    pub fn new(name: &str, status: i32, handle: u64) -> (r: Result<Agent, NixlError>)
        ensures
            r.is_ok() <==> is_valid_name(name@) && status == SUCCESS,
            r matches Ok(a) ==> a.wf() && a@ == AgentModel::fresh(name@, handle),
            r matches Err(e) ==> e == named_call_error(name@, status),
    {
        match check_name(name) {
            Err(e) => { return Err(e); },
            Ok(()) => {},
        }
        if status == SUCCESS {
            Ok(Agent {
                name: name.to_owned(),
                handle,
                backends: Vec::new(),
                remotes: Vec::new(),
                backend_map: Ghost(Map::empty()),
                remote_set: Ghost(Set::empty()),
            })
        } else if status == ERR_INVALID_PARAM {
            Err(NixlError::InvalidParam)
        } else {
            Err(NixlError::BackendError)
        }
    }

    /// The agent's name.
    pub fn name(&self) -> (r: String)
        ensures
            r@ == self@.name,
    {
        self.name.clone()
    }

    /// The native handle of the engine's agent.
    pub fn native_handle(&self) -> (r: u64)
        ensures
            r == self@.handle,
    {
        self.handle
    }

    fn backend_index(&self, name: &String) -> (r: Option<usize>)
        requires
            self.wf(),
        ensures
            match r {
                Some(i) => i < self.backends@.len() && self.backends@[i as int].0@ == name@,
                None => !self@.backends.contains_key(name@),
            },
    {
        let mut i: usize = 0;
        while i < self.backends.len()
            invariant
                i <= self.backends@.len(),
                forall|j: int| 0 <= j < i ==> self.backends@[j].0@ != name@,
            decreases self.backends@.len() - i,
        {
            if self.backends[i].0 == *name {
                return Some(i);
            }
            i += 1;
        }
        None
    }

    fn remote_index(&self, name: &String) -> (r: Option<usize>)
        requires
            self.wf(),
        ensures
            match r {
                Some(i) => i < self.remotes@.len() && self.remotes@[i as int]@ == name@,
                None => !self@.remotes.contains(name@),
            },
    {
        let mut i: usize = 0;
        while i < self.remotes.len()
            invariant
                i <= self.remotes@.len(),
                forall|j: int| 0 <= j < i ==> self.remotes@[j]@ != name@,
            decreases self.remotes@.len() - i,
        {
            if self.remotes[i] == *name {
                return Some(i);
            }
            i += 1;
        }
        None
    }

    /// Records a backend under `name`, replacing an earlier one of that name.
    fn insert_backend(&mut self, name: String, backend: Backend)
        requires
            old(self).wf(),
            backend@ != 0,
        ensures
            final(self).wf(),
            final(self)@ == old(self)@.with_backends(old(self)@.backends.insert(name@, backend@)),
    {
        let ghost key = name@;
        let ghost prev = self.backends@;
        let ghost entry = (name, backend);
        let ghost mut pos: int = 0;
        match self.backend_index(&name) {
            Some(i) => {
                self.backends.remove(i);
                self.backends.insert(i, (name, backend));
                proof {
                    assert(self.backends@ =~= prev.update(i as int, entry));
                    pos = i as int;
                }
            },
            None => {
                self.backends.push((name, backend));
                proof {
                    pos = prev.len() as int;
                }
            },
        }
        self.backend_map = Ghost(self.backend_map@.insert(key, backend@));
        proof {
            assert(self.backends@[pos] == entry);
            assert forall|m: int| 0 <= m < self.backends@.len() && m != pos implies
                #[trigger] self.backends@[m] == prev[m] && prev[m].0@ != key by {
                assert(old(self).backend_map@.contains_key(prev[m].0@));
            }
            assert forall|a: int, b: int| 0 <= a < b < self.backends@.len() implies
                self.backends@[a].0@ != self.backends@[b].0@ by {
                if a != pos && b != pos {
                    assert(self.backends@[a] == prev[a]);
                    assert(self.backends@[b] == prev[b]);
                } else if a == pos {
                    assert(self.backends@[b] == prev[b]);
                } else {
                    assert(self.backends@[a] == prev[a]);
                }
            }
            assert forall|k: Seq<char>| #[trigger] self.backend_map@.contains_key(k) implies exists|i: int|
                0 <= i < self.backends@.len() && self.backends@[i].0@ == k by {
                if k != key {
                    let j = choose|j: int| 0 <= j < prev.len() && prev[j].0@ == k;
                    assert(self.backends@[j].0@ == k);
                } else {
                    assert(self.backends@[pos].0@ == k);
                }
            }
            assert forall|m: int| 0 <= m < self.backends@.len() implies {
                &&& self.backend_map@.contains_key(#[trigger] self.backends@[m].0@)
                &&& self.backend_map@[self.backends@[m].0@] == self.backends@[m].1@
                &&& self.backends@[m].1@ != 0
            } by {
                if m != pos {
                    assert(self.backends@[m] == prev[m]);
                }
            }
            assert(self.remotes == old(self).remotes);
            assert(self@.backends =~= old(self)@.backends.insert(key, backend@));
        }
    }

    /// Records `name` as a peer whose metadata is loaded.
    fn insert_remote(&mut self, name: String)
        requires
            old(self).wf(),
        ensures
            final(self).wf(),
            final(self)@ == old(self)@.with_remotes(old(self)@.remotes.insert(name@)),
    {
        let ghost key = name@;
        match self.remote_index(&name) {
            Some(_) => {},
            None => {
                self.remotes.push(name);
                self.remote_set = Ghost(self.remote_set@.insert(key));
                proof {
                    let n = self.remotes@.len() - 1;
                    assert(self.remotes@[n]@ == key);
                    assert forall|k: Seq<char>| #[trigger] self.remote_set@.contains(k) implies exists|i: int|
                        0 <= i < self.remotes@.len() && self.remotes@[i]@ == k by {
                        if k != key {
                            let j = choose|j: int| 0 <= j < n && old(self).remotes@[j]@ == k;
                            assert(self.remotes@[j]@ == k);
                        }
                    }
                    assert forall|a: int, b: int| 0 <= a < b < self.remotes@.len() implies
                        self.remotes@[a]@ != self.remotes@[b]@ by {
                        if b == n {
                            assert(old(self).remote_set@.contains(self.remotes@[a]@));
                        }
                    }
                }
            },
        }
        proof {
            assert(self@.remotes =~= old(self)@.remotes.insert(key));
        }
    }

    /// Forgets `name` as a loaded peer, if it is one; says whether it was.
    fn remove_remote(&mut self, name: &String) -> (r: bool)
        requires
            old(self).wf(),
        ensures
            final(self).wf(),
            r == old(self)@.remotes.contains(name@),
            final(self)@ == old(self)@.with_remotes(old(self)@.remotes.remove(name@)),
    {
        let ghost key = name@;
        let ghost prev = self.remotes@;
        match self.remote_index(name) {
            Some(i) => {
                self.remotes.remove(i);
                self.remote_set = Ghost(self.remote_set@.remove(key));
                proof {
                    assert forall|m: int| 0 <= m < self.remotes@.len() implies
                        #[trigger] self.remotes@[m] == (if m < i { prev[m] } else { prev[m + 1] }) by {}
                    assert forall|k: Seq<char>| #[trigger] self.remote_set@.contains(k) implies exists|m: int|
                        0 <= m < self.remotes@.len() && self.remotes@[m]@ == k by {
                        let j = choose|j: int| 0 <= j < prev.len() && prev[j]@ == k;
                        if j < i {
                            assert(self.remotes@[j]@ == k);
                        } else {
                            assert(j != i);
                            assert(self.remotes@[j - 1]@ == k);
                        }
                    }
                    assert forall|a: int, b: int| 0 <= a < b < self.remotes@.len() implies
                        self.remotes@[a]@ != self.remotes@[b]@ by {
                        let pa = if a < i { a } else { a + 1 };
                        let pb = if b < i { b } else { b + 1 };
                        assert(self.remotes@[a] == prev[pa]);
                        assert(self.remotes@[b] == prev[pb]);
                    }
                    assert forall|m: int| 0 <= m < self.remotes@.len() implies
                        self.remote_set@.contains(#[trigger] self.remotes@[m]@) by {
                        let pm = if m < i { m } else { m + 1 };
                        assert(self.remotes@[m] == prev[pm]);
                        assert(prev[pm]@ != prev[i as int]@);
                    }
                    assert(self@.remotes =~= old(self)@.remotes.remove(key));
                }
                true
            },
            None => {
                proof {
                    assert(self@.remotes =~= old(self)@.remotes.remove(key));
                }
                false
            },
        }
    }

    /// Records a backend the engine created for `plugin`, given what it
    /// reported. A name with a terminator character is refused before the
    /// engine is asked; a null handle reported with success is a backend
    /// error. On success the registry maps `plugin` to the new backend.
    pub fn create_backend(&mut self, plugin: &str, status: i32, backend: u64) -> (r: Result<
        Backend,
        NixlError,
    >)
        requires
            old(self).wf(),
        ensures
            final(self).wf(),
            r.is_ok() <==> is_valid_name(plugin@) && status == SUCCESS && backend != 0,
            r matches Ok(b) ==> b@ == backend && final(self)@ == old(self)@.with_backends(
                old(self)@.backends.insert(plugin@, backend),
            ),
            r matches Err(e) ==> final(self)@ == old(self)@ && e == (if is_valid_name(plugin@)
                && status == SUCCESS {
                NixlError::BackendError
            } else {
                named_call_error(plugin@, status)
            }),
    {
        match check_name(plugin) {
            Err(e) => { return Err(e); },
            Ok(()) => {},
        }
        if status == ERR_INVALID_PARAM {
            return Err(NixlError::InvalidParam);
        }
        if status != SUCCESS || backend == 0 {
            return Err(NixlError::BackendError);
        }
        let b = Backend::from_raw(backend);
        self.insert_backend(plugin.to_owned(), b);
        Ok(b)
    }

    /// Looks up the backend created for plugin `name`; absent if there is none.
    pub fn get_backend(&self, name: &str) -> (r: Option<Backend>)
        requires
            self.wf(),
        ensures
            r.is_some() <==> self@.backends.contains_key(name@),
            r matches Some(b) ==> b@ == self@.backends[name@],
    {
        let key = name.to_owned();
        match self.backend_index(&key) {
            Some(i) => Some(self.backends[i].1),
            None => None,
        }
    }

    /// Records the peer named in metadata the engine loaded, given what it
    /// reported: the status and the peer's name, absent if the engine gave
    /// none. On success the peer joins the loaded remotes.
    pub fn load_remote_md(&mut self, status: i32, agent_name: Option<String>) -> (r: Result<
        String,
        NixlError,
    >)
        requires
            old(self).wf(),
        ensures
            final(self).wf(),
            r.is_ok() <==> status == SUCCESS && agent_name.is_some(),
            r matches Ok(n) ==> agent_name == Some(n) && final(self)@ == old(self)@.with_remotes(
                old(self)@.remotes.insert(n@),
            ),
            r matches Err(e) ==> final(self)@ == old(self)@ && e == (if status == SUCCESS {
                NixlError::InvalidDataPointer
            } else {
                status_error(status)
            }),
    {
        if status == ERR_INVALID_PARAM {
            return Err(NixlError::InvalidParam);
        }
        if status != SUCCESS {
            return Err(NixlError::BackendError);
        }
        match agent_name {
            None => Err(NixlError::InvalidDataPointer),
            Some(name) => {
                self.insert_remote(name.clone());
                Ok(name)
            },
        }
    }

    /// Records a peer whose metadata the engine fetched from the directory,
    /// given the reported status. A name with a terminator character is
    /// refused before the engine is asked. On success `remote_name` joins the
    /// loaded remotes.
    pub fn fetch_remote_md(&mut self, remote_name: &str, status: i32) -> (r: Result<(), NixlError>)
        requires
            old(self).wf(),
        ensures
            final(self).wf(),
            r.is_ok() <==> is_valid_name(remote_name@) && status == SUCCESS,
            r.is_ok() ==> final(self)@ == old(self)@.with_remotes(
                old(self)@.remotes.insert(remote_name@),
            ),
            r matches Err(e) ==> final(self)@ == old(self)@ && e == named_call_error(
                remote_name@,
                status,
            ),
    {
        match check_name(remote_name) {
            Err(e) => { return Err(e); },
            Ok(()) => {},
        }
        if status == ERR_INVALID_PARAM {
            return Err(NixlError::InvalidParam);
        }
        if status != SUCCESS {
            return Err(NixlError::BackendError);
        }
        self.insert_remote(remote_name.to_owned());
        Ok(())
    }

    /// Forgets the loaded metadata of peer `remote_agent`. A peer that is not
    /// loaded is refused, and the engine must then not be asked; on success
    /// the caller asks the engine to invalidate that peer.
    pub fn invalidate_remote_md(&mut self, remote_agent: &str) -> (r: Result<(), NixlError>)
        requires
            old(self).wf(),
        ensures
            final(self).wf(),
            r.is_ok() <==> old(self)@.remotes.contains(remote_agent@),
            r.is_ok() ==> final(self)@ == old(self)@.with_remotes(
                old(self)@.remotes.remove(remote_agent@),
            ),
            r matches Err(e) ==> e == NixlError::InvalidParam && final(self)@ == old(self)@,
    {
        let key = remote_agent.to_owned();
        if self.remove_remote(&key) {
            Ok(())
        } else {
            proof {
                assert(self@.remotes =~= old(self)@.remotes);
            }
            Err(NixlError::InvalidParam)
        }
    }

    /// Forgets every loaded peer and returns their names, each once: the
    /// caller asks the engine to invalidate each of them.
    pub fn invalidate_all_remotes(&mut self) -> (r: Vec<String>)
        requires
            old(self).wf(),
        ensures
            final(self).wf(),
            final(self)@ == old(self)@.with_remotes(Set::empty()),
            names_of(r@).no_duplicates(),
            names_of(r@).to_set() == old(self)@.remotes,
            r@.len() == old(self)@.remotes.len(),
    {
        let mut drained: Vec<String> = Vec::new();
        std::mem::swap(&mut drained, &mut self.remotes);
        self.remote_set = Ghost(Set::empty());
        proof {
            assert(self.remotes@.len() == 0);
            assert(self@.remotes =~= Set::empty());
            let names = names_of(drained@);
            assert(names.to_set() =~= old(self)@.remotes) by {
                assert forall|k: Seq<char>| old(self)@.remotes.contains(k) implies names.to_set().contains(k) by {
                    let j = choose|j: int| 0 <= j < drained@.len() && drained@[j]@ == k;
                    assert(names[j] == k);
                }
            }
            assert(names.no_duplicates());
            names.unique_seq_to_set();
        }
        drained
    }

    /// Releases the registry and returns the engine calls that must follow,
    /// in order: invalidate each loaded peer, destroy each backend, destroy
    /// the agent. None of them may be skipped or reordered.
    pub fn teardown(self) -> (r: Vec<Cleanup>)
        requires
            self.wf(),
        ensures
            teardown_order(r@, self@),
    {
        let mut plan: Vec<Cleanup> = Vec::new();
        let mut i: usize = 0;
        while i < self.remotes.len()
            invariant
                i <= self.remotes@.len(),
                plan@.len() == i,
                forall|j: int| 0 <= j < i ==> (#[trigger] plan@[j]).invalidates(self.remotes@[j]@),
            decreases self.remotes@.len() - i,
        {
            plan.push(Cleanup::InvalidateRemote(self.remotes[i].clone()));
            i += 1;
        }
        let m = self.remotes.len();
        let mut j: usize = 0;
        while j < self.backends.len()
            invariant
                m == self.remotes@.len(),
                j <= self.backends@.len(),
                plan@.len() == m + j,
                forall|t: int| 0 <= t < m ==> (#[trigger] plan@[t]).invalidates(self.remotes@[t]@),
                forall|t: int|
                    0 <= t < j ==> #[trigger] plan@[m + t] == Cleanup::DestroyBackend(
                        self.backends@[t].1@,
                    ),
            decreases self.backends@.len() - j,
        {
            plan.push(Cleanup::DestroyBackend(self.backends[j].1.raw()));
            j += 1;
        }
        let ghost before = plan@;
        plan.push(Cleanup::DestroyAgent(self.handle));
        proof {
            assert forall|t: int| 0 <= t < before.len() implies #[trigger] plan@[t] == before[t] by {}
            assert(plan@[before.len() as int] == Cleanup::DestroyAgent(self@.handle));
            let names = names_of(self.remotes@);
            assert(names.to_set() =~= self@.remotes) by {
                assert forall|k: Seq<char>| self@.remotes.contains(k) implies names.to_set().contains(k) by {
                    let t = choose|t: int| 0 <= t < self.remotes@.len() && self.remotes@[t]@ == k;
                    assert(names[t] == k);
                }
            }
            names.unique_seq_to_set();
            let keys = self.backends@.map_values(|e: (String, Backend)| e.0@);
            assert(keys.to_set() =~= self@.backends.dom()) by {
                assert forall|k: Seq<char>| self@.backends.contains_key(k) implies keys.to_set().contains(k) by {
                    let t = choose|t: int| 0 <= t < self.backends@.len() && self.backends@[t].0@ == k;
                    assert(keys[t] == k);
                }
            }
            keys.unique_seq_to_set();
            let n = self.backends@.len() as int;
            assert(self@.remotes.len() == m);
            assert(self@.backends.dom().len() == n);
            assert forall|t: int| 0 <= t < m implies #[trigger] plan@[t] is InvalidateRemote
                && self@.remotes.contains(plan@[t]->InvalidateRemote_0@) by {
                assert(before[t].invalidates(self.remotes@[t]@));
                assert(plan@[t] == before[t]);
                assert(self@.remotes.contains(self.remotes@[t]@));
            }
            assert forall|k: Seq<char>| #![trigger self@.remotes.contains(k)] self@.remotes.contains(k) implies exists|t: int|
                0 <= t < m && plan@[t].invalidates(k) by {
                let t = choose|t: int| 0 <= t < self.remotes@.len() && self.remotes@[t]@ == k;
                assert(before[t].invalidates(k));
                assert(plan@[t] == before[t]);
            }
            assert forall|t: int| m <= t < m + n implies #[trigger] plan@[t] is DestroyBackend
                && self@.backends.values().contains(plan@[t]->DestroyBackend_0) by {
                assert(before[m + (t - m)] == Cleanup::DestroyBackend(self.backends@[t - m].1@));
                assert(plan@[t] == before[t]);
                assert(self@.backends.contains_key(self.backends@[t - m].0@));
            }
            assert forall|k: Seq<char>| #![trigger self@.backends.contains_key(k)] self@.backends.contains_key(k) implies exists|t: int|
                m <= t < m + n && plan@[t] == Cleanup::DestroyBackend(self@.backends[k]) by {
                let t = choose|t: int| 0 <= t < self.backends@.len() && self.backends@[t].0@ == k;
                assert(before[m + t] == Cleanup::DestroyBackend(self.backends@[t].1@));
                assert(plan@[m + t] == before[m + t]);
            }
            assert forall|t: int| 0 <= t < m implies plan@[t]->InvalidateRemote_0@ == #[trigger] self.remotes@[t]@ by {
                assert(before[t].invalidates(self.remotes@[t]@));
                assert(plan@[t] == before[t]);
            }
            assert forall|i: int, j: int| 0 <= i < j < m implies plan@[i]->InvalidateRemote_0@
                != plan@[j]->InvalidateRemote_0@ by {
                assert(plan@[i]->InvalidateRemote_0@ == self.remotes@[i]@);
                assert(plan@[j]->InvalidateRemote_0@ == self.remotes@[j]@);
            }
            assert forall|t: int| 0 <= t < n implies #[trigger] plan@[m + t] == Cleanup::DestroyBackend(
                self@.backends[keys[t]],
            ) by {
                assert(before[m + t] == Cleanup::DestroyBackend(self.backends@[t].1@));
                assert(plan@[m + t] == before[m + t]);
                assert(keys[t] == self.backends@[t].0@);
            }
            assert(keys.len() == n && keys.no_duplicates() && keys.to_set() == self@.backends.dom());
        }
        plan
    }
}

} // verus!
