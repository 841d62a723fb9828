use nixl::agent::Agent;
use nixl::error::{NixlError, ERR_INVALID_PARAM, IN_PROG, SUCCESS};
use nixl::handles::CostMethod;
use nixl::xfer::{XferPhase, XferStatus};

fn agent() -> Agent {
    Agent::new("a", SUCCESS, 0x1000).unwrap()
}

#[test]
fn xfer_status_is_success() {
    assert!(XferStatus::Success.is_success());
    assert!(!XferStatus::InProgress.is_success());
}

#[test]
fn post_then_poll_until_success() {
    let a = agent();
    let mut req = a.make_xfer_req(SUCCESS, 0x4000).unwrap();
    assert_eq!(req.raw(), 0x4000);
    assert_eq!(req.phase(), XferPhase::Created);
    assert_eq!(a.post_xfer_req(&mut req, IN_PROG), Ok(true));
    assert_eq!(req.phase(), XferPhase::InProgress);
    assert_eq!(a.get_xfer_status(&mut req, IN_PROG), Ok(XferStatus::InProgress));
    assert_eq!(a.get_xfer_status(&mut req, SUCCESS), Ok(XferStatus::Success));
    assert_eq!(req.phase(), XferPhase::Complete);
    assert_eq!(a.get_xfer_status(&mut req, IN_PROG), Ok(XferStatus::Success));
    assert_eq!(a.get_xfer_status(&mut req, -2), Err(NixlError::BackendError));
    assert_eq!(a.get_xfer_status(&mut req, ERR_INVALID_PARAM), Err(NixlError::InvalidParam));
    assert_eq!(req.phase(), XferPhase::Complete);
    assert_eq!(a.get_xfer_status(&mut req, IN_PROG), Ok(XferStatus::Success));
}

#[test]
fn post_completing_at_once() {
    let a = agent();
    let mut req = a.create_xfer_req("peer", SUCCESS, 0x4000).unwrap();
    assert_eq!(a.post_xfer_req(&mut req, SUCCESS), Ok(false));
    assert_eq!(req.phase(), XferPhase::Complete);
}

#[test]
fn post_and_poll_errors() {
    let a = agent();
    let mut req = a.make_xfer_req(SUCCESS, 0x4000).unwrap();
    assert_eq!(a.post_xfer_req(&mut req, ERR_INVALID_PARAM), Err(NixlError::InvalidParam));
    assert_eq!(a.post_xfer_req(&mut req, -2), Err(NixlError::BackendError));
    assert_eq!(req.phase(), XferPhase::Created);
    assert_eq!(a.get_xfer_status(&mut req, ERR_INVALID_PARAM), Err(NixlError::InvalidParam));
    assert_eq!(a.get_xfer_status(&mut req, -2), Err(NixlError::BackendError));
}

#[test]
fn null_request_is_failed_to_create() {
    let a = agent();
    assert_eq!(a.make_xfer_req(SUCCESS, 0).err(), Some(NixlError::FailedToCreateXferRequest));
    assert_eq!(a.create_xfer_req("peer", SUCCESS, 0).err(), Some(NixlError::FailedToCreateXferRequest));
}

#[test]
fn request_creation_errors() {
    let a = agent();
    assert_eq!(a.make_xfer_req(ERR_INVALID_PARAM, 0x4000).err(), Some(NixlError::InvalidParam));
    assert_eq!(a.make_xfer_req(-2, 0x4000).err(), Some(NixlError::BackendError));
    assert_eq!(a.create_xfer_req("peer", -2, 0x4000).err(), Some(NixlError::BackendError));
    assert_eq!(a.create_xfer_req("pe\0er", SUCCESS, 0x4000).err(), Some(NixlError::InvalidParam));
}

#[test]
fn prepared_list_carries_agent_handle() {
    let a = agent();
    let d = a.prepare_xfer_dlist("peer", SUCCESS, 0x6000).unwrap();
    assert_eq!((d.raw(), d.agent()), (0x6000, 0x1000));
    assert_eq!(a.prepare_xfer_dlist("peer", ERR_INVALID_PARAM, 0).err(), Some(NixlError::InvalidParam));
    assert_eq!(a.prepare_xfer_dlist("peer", -2, 0).err(), Some(NixlError::BackendError));
    assert_eq!(a.prepare_xfer_dlist("p\0", SUCCESS, 0x6000).err(), Some(NixlError::InvalidParam));
}

#[test]
fn cost_estimate() {
    let a = agent();
    assert_eq!(a.estimate_xfer_cost(SUCCESS, 120, 15, 0), Ok((120, 15, CostMethod::AnalyticalBackend)));
    assert_eq!(a.estimate_xfer_cost(SUCCESS, -1, 0, 7), Ok((-1, 0, CostMethod::Unknown)));
    assert_eq!(a.estimate_xfer_cost(ERR_INVALID_PARAM, 0, 0, 0), Err(NixlError::InvalidParam));
    assert_eq!(a.estimate_xfer_cost(-2, 0, 0, 0), Err(NixlError::BackendError));
}

#[test]
fn query_xfer_backend_cases() {
    let a = agent();
    assert_eq!(a.query_xfer_backend(SUCCESS, 0x2000).unwrap().raw(), 0x2000);
    assert_eq!(a.query_xfer_backend(SUCCESS, 0).err(), Some(NixlError::FailedToCreateBackend));
    assert_eq!(a.query_xfer_backend(ERR_INVALID_PARAM, 0x2000).err(), Some(NixlError::InvalidParam));
    assert_eq!(a.query_xfer_backend(-2, 0x2000).err(), Some(NixlError::BackendError));
}
