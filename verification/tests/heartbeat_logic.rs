use service_registry::heartbeat::heartbeat_proto::{HeartbeatRequest, HeartbeatResponse};
use service_registry::heartbeat::{
    Error, FixedResponder, Hub, HubAction, HubBuilder, HubMessage, Server, ServerError,
    TargetBuilder,
};
use service_registry::heartbeat::{effective_timeout, finish_probe, ProbeOutcome};
use service_registry::heartbeat::process_request;
use service_registry::wire::decode_frame;
use service_registry::{HostAddr, SockAddr};

fn local_addr(port: u16) -> SockAddr {
    SockAddr::new(HostAddr::V4(127, 0, 0, 1), port)
}

fn simple_heartbeat_request() -> HeartbeatRequest {
    let mut req = HeartbeatRequest::new();
    req.set_msg(1);
    req
}

fn simple_heartbeat_response() -> HeartbeatResponse {
    let mut rsp = HeartbeatResponse::new();
    rsp.set_msg(1);
    rsp
}

#[test]
fn test_hub_target_construct() {
    let addr = local_addr(10002);
    let interval: u64 = 1000;
    let timeout: u64 = 1000;
    let simple = simple_heartbeat_request();
    let zero = HeartbeatRequest::new();

    let target = TargetBuilder::new(addr).request(zero).build().unwrap_err();
    assert!(target.is_zero_payload());

    let target = TargetBuilder::new(addr)
        .interval(interval)
        .timeout(timeout)
        .request(simple)
        .build()
        .unwrap();

    assert_eq!(target.get_interval(), Some(interval));
    assert_eq!(target.get_timeout(), Some(timeout));
    let payload = target.get_payload().clone().unwrap();
    assert_eq!(simple_heartbeat_request().write_to_bytes(), payload);
}

#[test]
fn test_hub_construct() {
    let simple = simple_heartbeat_request();
    let zero = HeartbeatRequest::new();
    let interval: u64 = 1000;
    let timeout: u64 = 1000;

    let r1 = HubBuilder::new(simple).timeout(timeout).interval(interval).build();
    let r2 = HubBuilder::new(zero).timeout(timeout).interval(interval).build();
    assert!(r1.is_ok());
    assert!(r2.is_err());

    let r1 = Hub::new(simple);
    let r2 = Hub::new(zero);
    assert!(r1.is_ok());
    assert!(r2.is_err());
}

#[test]
fn target_build_succeeds_for_every_nonzero_request() {
    let addr = local_addr(10002);
    for msg in [1u32, 2, 100, 0xFFFF_FFFF] {
        let mut req = HeartbeatRequest::new();
        req.set_msg(msg);
        assert!(TargetBuilder::new(addr).request(req).build().is_ok());
    }
    // a builder with no request at all also succeeds, with no payload
    let t = TargetBuilder::new(addr).build().unwrap();
    assert!(t.get_payload().is_none());
}

#[test]
fn hub_success_cycle_rearms_interval() {
    let interval: u64 = 50;
    let mut hub = HubBuilder::new(simple_heartbeat_request())
        .timeout(20)
        .interval(interval)
        .build()
        .unwrap();
    let target = TargetBuilder::new(local_addr(10004)).build().unwrap();
    let (id, first_task) = hub.add_target(target);
    assert_eq!(first_task.uuid, id);

    // six consecutive successful probes: each one notifies and arms the
    // timer for exactly the hub interval, and the wakeup schedules again
    let mut count = 0;
    while count < 6 {
        let (go, actions) = hub.handle_message(HubMessage::HeartbeatResponse(
            id,
            Ok(simple_heartbeat_response()),
        ));
        assert!(go);
        assert_eq!(actions.len(), 2);
        match &actions[0] {
            HubAction::Notify(nid, res) => {
                assert_eq!(*nid, id);
                assert_eq!(*res.as_ref().unwrap(), simple_heartbeat_response());
            }
            _ => panic!("expected a notification first"),
        }
        match &actions[1] {
            HubAction::ArmTimer(wait, tid) => {
                assert_eq!(*wait, interval);
                assert_eq!(*tid, id);
            }
            _ => panic!("expected the timer to be armed"),
        }

        let (go, actions) = hub.handle_message(HubMessage::WakeupTarget(id));
        assert!(go);
        assert_eq!(actions.len(), 1);
        match &actions[0] {
            HubAction::Schedule(task) => assert_eq!(task.uuid, id),
            _ => panic!("expected the next probe to be scheduled"),
        }
        count += 1;
    }
}

#[test]
fn hub_target_interval_overrides_default() {
    let mut hub = HubBuilder::new(simple_heartbeat_request()).interval(1000).build().unwrap();
    let target = TargetBuilder::new(local_addr(10004)).interval(50).build().unwrap();
    let (id, _) = hub.add_target(target);
    let (_, actions) = hub.handle_message(HubMessage::HeartbeatResponse(
        id,
        Ok(simple_heartbeat_response()),
    ));
    match &actions[1] {
        HubAction::ArmTimer(wait, _) => assert_eq!(*wait, 50),
        _ => panic!("expected the timer to be armed"),
    }
}

#[test]
fn test_remove_target() {
    let mut hub = HubBuilder::new(simple_heartbeat_request())
        .timeout(20)
        .interval(50)
        .build()
        .unwrap();
    let target = TargetBuilder::new(local_addr(10008)).build().unwrap();
    let (id, _) = hub.add_target(target);

    let removed = hub.remove_target(id).unwrap();
    assert_eq!(id, removed.get_id());

    // a result still in flight arrives after removal: nothing fires
    let (go, actions) = hub.handle_message(HubMessage::HeartbeatResponse(
        id,
        Ok(simple_heartbeat_response()),
    ));
    assert!(go);
    assert!(actions.is_empty());

    // a stale wakeup is ignored the same way
    let (_, actions) = hub.handle_message(HubMessage::WakeupTarget(id));
    assert!(actions.is_empty());

    // removing again finds nothing
    assert!(hub.remove_target(id).is_none());
}

#[test]
fn hub_failure_drops_target_without_retry() {
    let mut hub = HubBuilder::new(simple_heartbeat_request()).build().unwrap();
    let target = TargetBuilder::new(local_addr(10010)).build().unwrap();
    let (id, _) = hub.add_target(target);

    let (go, actions) = hub.handle_message(HubMessage::HeartbeatResponse(
        id,
        Err(Error::IoErr("connection refused".to_string())),
    ));
    assert!(go);
    assert_eq!(actions.len(), 1);
    match &actions[0] {
        HubAction::Notify(nid, res) => {
            assert_eq!(*nid, id);
            assert!(res.as_ref().unwrap_err().is_io_error());
        }
        _ => panic!("expected exactly one notification"),
    }

    // the target is gone: a later wakeup schedules nothing
    let (_, actions) = hub.handle_message(HubMessage::WakeupTarget(id));
    assert!(actions.is_empty());
}

#[test]
fn hub_stop_ends_loop() {
    let mut hub = HubBuilder::new(simple_heartbeat_request()).build().unwrap();
    let (go, actions) = hub.handle_message(HubMessage::Stop);
    assert!(!go);
    assert!(actions.is_empty());
}

#[test]
fn probe_outcome_classification() {
    // the timer won the race
    let r = finish_probe(ProbeOutcome::TimedOut);
    assert!(r.unwrap_err().is_timeout());

    // the network failed first
    let r = finish_probe(ProbeOutcome::Completed(Err("closed by server".to_string())));
    assert!(r.unwrap_err().is_io_error());

    // a valid reply parses to the response
    let rsp = simple_heartbeat_response();
    let r = finish_probe(ProbeOutcome::Completed(Ok(rsp.write_to_bytes())));
    assert_eq!(r.unwrap(), rsp);

    // a malformed reply counts as a network failure
    let r = finish_probe(ProbeOutcome::Completed(Ok(vec![0x00, 0xFF])));
    assert!(r.unwrap_err().is_io_error());
}

#[test]
fn effective_timeout_falls_back() {
    assert_eq!(effective_timeout(&Some(50), 5000), 50);
    assert_eq!(effective_timeout(&None, 5000), 5000);
}

#[test]
fn error_predicates() {
    assert!(Error::SerializeFailed("oops".to_string()).is_serialize_failed());
    assert!(Error::ZeroPayload.is_zero_payload());
    assert!(Error::IoErr("e".to_string()).is_io_error());
    assert!(Error::Timeout.is_timeout());
    assert!(Error::HubStopped.is_hub_stoped());
    assert!(!Error::Timeout.is_io_error());
    assert!(!Error::ZeroPayload.is_timeout());
}

#[test]
fn server_round_trip_echoes_fixed_response() {
    let handler = FixedResponder { rsp: simple_heartbeat_response() };
    let request_bytes = simple_heartbeat_request().write_to_bytes();

    let reply_frame = process_request(&handler, &request_bytes).unwrap();
    let (reply_payload, end) = decode_frame(&reply_frame).unwrap();
    assert_eq!(end, reply_frame.len());
    let reply = HeartbeatResponse::parse_from_bytes(&reply_payload).unwrap();
    assert_eq!(reply, simple_heartbeat_response());

    // corrupted request: no reply at all, the connection just closes
    let mut corrupted = request_bytes.clone();
    for by in corrupted.iter_mut() {
        *by = !*by;
    }
    assert!(process_request(&handler, &corrupted).is_none());
}

#[test]
fn server_start_is_idempotent_safe() {
    let handler = FixedResponder { rsp: simple_heartbeat_response() };
    let mut server = Server::new("test_server".to_string(), handler);

    assert!(server.begin_start().is_ok());
    assert_eq!(server.confirm_start(true), Ok(()));

    // starting an already started server is refused, not spawned twice
    assert_eq!(server.begin_start().unwrap_err(), ServerError::AlreadyStarted);

    // a failed bind leaves the server stopped, so it can be retried
    let handler2 = FixedResponder { rsp: simple_heartbeat_response() };
    let mut server2 = Server::new("test_server".to_string(), handler2);
    assert!(server2.begin_start().is_ok());
    assert_eq!(server2.confirm_start(false), Err(ServerError::BindFailed));
    assert!(server2.begin_start().is_ok());
}
