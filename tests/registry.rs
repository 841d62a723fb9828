use nixl::agent::{Agent, Cleanup};
use nixl::error::{status_result, NixlError, ERR_INVALID_PARAM, IN_PROG, SUCCESS};
use nixl::name::check_name;

fn agent(name: &str) -> Agent {
    Agent::new(name, SUCCESS, 0x1000).unwrap()
}

#[test]
fn new_agent_keeps_its_name() {
    let a = agent("agent-a");
    assert_eq!(a.name(), "agent-a");
    assert_eq!(a.native_handle(), 0x1000);
    let b = agent("");
    assert_eq!(b.name(), "");
}

#[test]
fn new_agent_rejects_terminator_in_name() {
    assert_eq!(Agent::new("ag\0ent", SUCCESS, 0x1000).err(), Some(NixlError::InvalidParam));
}

#[test]
fn new_agent_maps_engine_status() {
    assert_eq!(Agent::new("a", ERR_INVALID_PARAM, 0).err(), Some(NixlError::InvalidParam));
    assert_eq!(Agent::new("a", -2, 0).err(), Some(NixlError::BackendError));
    assert_eq!(Agent::new("a", IN_PROG, 0).err(), Some(NixlError::BackendError));
}

#[test]
fn status_mapping() {
    assert_eq!(status_result(SUCCESS), Ok(()));
    assert_eq!(status_result(ERR_INVALID_PARAM), Err(NixlError::InvalidParam));
    assert_eq!(status_result(-7), Err(NixlError::BackendError));
    assert_eq!(status_result(IN_PROG), Err(NixlError::BackendError));
}

#[test]
fn name_check() {
    assert_eq!(check_name("ucx"), Ok(()));
    assert_eq!(check_name(""), Ok(()));
    assert_eq!(check_name("\0"), Err(NixlError::InvalidParam));
    assert_eq!(check_name("gds\0mt"), Err(NixlError::InvalidParam));
}

#[test]
fn created_backend_is_found_by_name() {
    let mut a = agent("a");
    let b = a.create_backend("p", SUCCESS, 0x2000).unwrap();
    assert_eq!(b.raw(), 0x2000);
    assert_eq!(a.get_backend("p"), Some(b));
    assert_eq!(a.get_backend("nonexistent"), None);
}

#[test]
fn recreated_backend_replaces_the_old_one() {
    let mut a = agent("a");
    a.create_backend("p", SUCCESS, 0x2000).unwrap();
    let b = a.create_backend("p", SUCCESS, 0x3000).unwrap();
    assert_eq!(a.get_backend("p"), Some(b));
    let plan = a.teardown();
    assert_eq!(plan, vec![Cleanup::DestroyBackend(0x3000), Cleanup::DestroyAgent(0x1000)]);
}

#[test]
fn backend_null_handle_is_backend_error() {
    let mut a = agent("a");
    assert_eq!(a.create_backend("p", SUCCESS, 0).err(), Some(NixlError::BackendError));
    assert_eq!(a.get_backend("p"), None);
}

#[test]
fn backend_creation_errors() {
    let mut a = agent("a");
    assert_eq!(a.create_backend("p\0", SUCCESS, 0x2000).err(), Some(NixlError::InvalidParam));
    assert_eq!(a.create_backend("p", ERR_INVALID_PARAM, 0x2000).err(), Some(NixlError::InvalidParam));
    assert_eq!(a.create_backend("p", -3, 0x2000).err(), Some(NixlError::BackendError));
    assert_eq!(a.get_backend("p"), None);
}

#[test]
fn loaded_remote_can_be_invalidated_once() {
    let mut a = agent("a");
    let name = a.load_remote_md(SUCCESS, Some("peer".to_string())).unwrap();
    assert_eq!(name, "peer");
    assert_eq!(a.invalidate_remote_md("peer"), Ok(()));
    assert_eq!(a.invalidate_remote_md("peer"), Err(NixlError::InvalidParam));
}

#[test]
fn load_remote_md_errors() {
    let mut a = agent("a");
    assert_eq!(a.load_remote_md(SUCCESS, None).err(), Some(NixlError::InvalidDataPointer));
    assert_eq!(a.load_remote_md(ERR_INVALID_PARAM, None).err(), Some(NixlError::InvalidParam));
    assert_eq!(a.load_remote_md(-4, Some("peer".to_string())).err(), Some(NixlError::BackendError));
    assert_eq!(a.invalidate_remote_md("peer"), Err(NixlError::InvalidParam));
}

#[test]
fn invalidate_never_loaded_remote_fails() {
    let mut a = agent("a");
    a.load_remote_md(SUCCESS, Some("peer".to_string())).unwrap();
    assert_eq!(a.invalidate_remote_md("stranger"), Err(NixlError::InvalidParam));
    assert_eq!(a.invalidate_remote_md("peer"), Ok(()));
    assert_eq!(a.teardown(), vec![Cleanup::DestroyAgent(0x1000)]);
}

#[test]
fn fetched_remote_is_loaded() {
    let mut a = agent("a");
    assert_eq!(a.fetch_remote_md("peer", SUCCESS), Ok(()));
    assert_eq!(a.fetch_remote_md("bad\0", SUCCESS), Err(NixlError::InvalidParam));
    assert_eq!(a.fetch_remote_md("other", ERR_INVALID_PARAM), Err(NixlError::InvalidParam));
    assert_eq!(a.fetch_remote_md("other", -9), Err(NixlError::BackendError));
    assert_eq!(a.invalidate_remote_md("other"), Err(NixlError::InvalidParam));
    assert_eq!(a.invalidate_remote_md("peer"), Ok(()));
}

#[test]
fn invalidate_all_remotes_drains_each_once() {
    let mut a = agent("a");
    a.load_remote_md(SUCCESS, Some("p1".to_string())).unwrap();
    a.fetch_remote_md("p2", SUCCESS).unwrap();
    a.load_remote_md(SUCCESS, Some("p1".to_string())).unwrap();
    let mut drained = a.invalidate_all_remotes();
    drained.sort();
    assert_eq!(drained, vec!["p1".to_string(), "p2".to_string()]);
    assert!(a.invalidate_all_remotes().is_empty());
    assert_eq!(a.invalidate_remote_md("p1"), Err(NixlError::InvalidParam));
}

#[test]
fn teardown_of_empty_agent_destroys_only_the_agent() {
    let a = agent("a");
    assert_eq!(a.teardown(), vec![Cleanup::DestroyAgent(0x1000)]);
}

#[test]
fn teardown_orders_remotes_then_backends_then_agent() {
    let mut a = agent("a");
    a.create_backend("ucx", SUCCESS, 0x2000).unwrap();
    a.create_backend("gds", SUCCESS, 0x3000).unwrap();
    a.load_remote_md(SUCCESS, Some("r1".to_string())).unwrap();
    a.load_remote_md(SUCCESS, Some("r2".to_string())).unwrap();
    a.fetch_remote_md("r3", SUCCESS).unwrap();
    let plan = a.teardown();
    assert_eq!(plan.len(), 6);
    let mut remotes: Vec<String> = plan[..3]
        .iter()
        .map(|c| match c {
            Cleanup::InvalidateRemote(n) => n.clone(),
            other => panic!("unexpected {:?}", other),
        })
        .collect();
    remotes.sort();
    assert_eq!(remotes, vec!["r1".to_string(), "r2".to_string(), "r3".to_string()]);
    let mut backends: Vec<u64> = plan[3..5]
        .iter()
        .map(|c| match c {
            Cleanup::DestroyBackend(h) => *h,
            other => panic!("unexpected {:?}", other),
        })
        .collect();
    backends.sort();
    assert_eq!(backends, vec![0x2000, 0x3000]);
    assert_eq!(plan[5], Cleanup::DestroyAgent(0x1000));
}

#[test]
fn teardown_with_only_backends() {
    let mut a = agent("a");
    a.create_backend("ucx", SUCCESS, 0x2000).unwrap();
    assert_eq!(a.teardown(), vec![Cleanup::DestroyBackend(0x2000), Cleanup::DestroyAgent(0x1000)]);
}
