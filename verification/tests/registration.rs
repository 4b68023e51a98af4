use service_registry::container::{
    Config as ContainerConfig, Meta, Negotiation, RpcError, WatchdogStep, re_register_request,
    register_request, resume_retry_wait, watchdog_decide,
};
use service_registry::registry::{Registry, ServiceDetail};
use service_registry::registry_proto::{ReRegisterRequest, StatusRequest};
use service_registry::rpc_server::{
    bytes_to_host, extract_host_from_grpc_bytes, try_extract_host, Config, RegisterService,
    Session, SessionIdGen,
};
use service_registry::{HostAddr, Service, ServiceId, SockAddr};

fn test_config() -> Config {
    Config {
        server_port: 9999,
        service_port_base: 21000,
        heartbeat_port_base: 25000,
        heartbeat_interval: 100,
    }
}

fn status(service_succeed: bool, heartbeat_succeed: bool, session_id: u64) -> StatusRequest {
    let mut req = StatusRequest::new();
    req.set_service_succeed(service_succeed);
    req.set_heartbeat_succeed(heartbeat_succeed);
    req.set_session_id(session_id);
    req
}

#[test]
fn test_bytes_to_host() {
    let a1 = [0; 4];
    let a2 = [0; 1];
    let a3 = [0; 5];
    let a4 = [0; 16];
    let a5 = [0; 26];

    let r1 = bytes_to_host(&a1);
    let r2 = bytes_to_host(&a2);
    let r3 = bytes_to_host(&a3);
    let r4 = bytes_to_host(&a4);
    let r5 = bytes_to_host(&a5);

    assert!(r1.is_ok());
    assert!(r2.is_err());
    assert!(r3.is_err());
    assert!(r4.is_ok());
    assert!(r5.is_err());

    assert_eq!(bytes_to_host(&[127, 0, 0, 1]).unwrap(), HostAddr::V4(127, 0, 0, 1));
    let mut v6 = [0u8; 16];
    v6[15] = 1;
    assert_eq!(bytes_to_host(&v6).unwrap(), HostAddr::V6(1));
}

#[test]
fn test_extract_host_from_grpc_bytes() {
    let a = b"127.127.127.127:65535";
    let b = extract_host_from_grpc_bytes(a);
    assert_eq!(b, vec![127, 127, 127, 127]);

    let a = b"0.0.0.127:65535";
    let b = extract_host_from_grpc_bytes(a);
    assert_eq!(b, vec![0, 0, 0, 127]);

    let a = b"1.1.1.1:1";
    let b = extract_host_from_grpc_bytes(a);
    assert_eq!(b, vec![1, 1, 1, 1]);
}

#[test]
fn rpc_server_test_extract_host_from_grpc_bytes() {
    // the parsed prefix names the peer's address
    let b = extract_host_from_grpc_bytes(b"127.127.127.127:65535");
    assert_eq!(bytes_to_host(&b).unwrap(), HostAddr::V4(127, 127, 127, 127));

    let b = extract_host_from_grpc_bytes(b"0.0.0.127:65535");
    assert_eq!(bytes_to_host(&b).unwrap(), HostAddr::V4(0, 0, 0, 127));

    let b = extract_host_from_grpc_bytes(b"1.1.1.1:1");
    assert_eq!(bytes_to_host(&b).unwrap(), HostAddr::V4(1, 1, 1, 1));
}

#[test]
fn extract_host_rejects_malformed_addresses() {
    assert!(try_extract_host(b"127.0.0.1").is_none()); // no port at all
    assert!(try_extract_host(b"1234.0.0.1:80").is_none()); // group too long
    assert!(try_extract_host(b"999.0.0.1:80").is_none()); // octet too large
    assert!(try_extract_host(b"1..0.1:80").is_none()); // empty group
    assert!(try_extract_host(b"abc:80").is_none()); // not digits
    assert!(try_extract_host(b":80").is_none()); // empty host
    assert_eq!(try_extract_host(b"10.20.30.40:0").unwrap(), vec![10, 20, 30, 40]);
}

#[test]
fn test_session() {
    let a1 = [0; 4];
    let a2 = [0; 0];

    let config = test_config();
    let mut ids = SessionIdGen::new();

    let s1 = Session::from_bytes(ServiceId(1), &a1, &config, ids.next());
    let s2 = Session::from_bytes(ServiceId(1), &a2, &config, ids.next());
    assert!(s1.is_ok());
    assert!(s2.is_err());

    let mut s1 = s1.unwrap();
    s1.step_heartbeat_port();
    s1.step_service_port();
    assert_eq!(s1.heartbeat_port, config.heartbeat_port_base + 1);
    assert_eq!(s1.service_port, config.service_port_base + 1);

    let sa = s1.service_addr();
    let ha = s1.heartbeat_addr();
    assert_eq!(sa, SockAddr::new(HostAddr::V4(0, 0, 0, 0), s1.service_port));
    assert_eq!(ha, SockAddr::new(HostAddr::V4(0, 0, 0, 0), s1.heartbeat_port));
}

#[test]
fn rpc_server_test_session() {
    let config = Config {
        server_port: 9999,
        service_port_base: 20000,
        heartbeat_port_base: 25000,
        heartbeat_interval: 100,
    };
    let ip = [0; 4];
    let mut s = Session::from_bytes(ServiceId(1), &ip, &config, 0).unwrap();

    s.step_heartbeat_port();
    s.step_service_port();
    assert_eq!(s.service_port, 20_000 + 1);
    assert_eq!(s.heartbeat_port, 25_000 + 1);
    s.step_both();
    assert_eq!(s.service_port, 20_000 + 2);
    assert_eq!(s.heartbeat_port, 25_000 + 2);
}

#[test]
fn test_register_service() {
    let config = test_config();
    let mut register_service = RegisterService::new(config);

    let a = [0; 4];
    let mut ids = SessionIdGen::new();
    let s = Session::from_bytes(ServiceId(1), &a, &config, ids.next()).unwrap();

    register_service.add_session(s);
    {
        let v = register_service.sessions.get(&s.session_id).unwrap();
        assert_eq!(v, &s);
    }

    let rs = register_service.step_both(s.session_id).unwrap();
    assert_eq!(rs.heartbeat_port, s.heartbeat_port + 1);
    assert_eq!(rs.service_port, s.service_port + 1);

    let rs = register_service.step_service(s.session_id).unwrap();
    assert_eq!(rs.heartbeat_port, s.heartbeat_port + 1);
    assert_eq!(rs.service_port, s.service_port + 2);

    let rs = register_service.step_heartbeat(s.session_id).unwrap();
    assert_eq!(rs.heartbeat_port, s.heartbeat_port + 2);
    assert_eq!(rs.service_port, s.service_port + 2);

    let fake_id = s.session_id + 1;
    let rs1 = register_service.step_both(fake_id);
    let rs2 = register_service.step_service(fake_id);
    let rs3 = register_service.step_heartbeat(fake_id);
    assert!(rs1.is_none());
    assert!(rs2.is_none());
    assert!(rs3.is_none());

    let rs = register_service.finish_session(s.session_id).unwrap();
    assert_eq!(rs.service_id, s.service_id);
    assert_eq!(rs.session_id, s.session_id);
    assert_eq!(register_service.sessions.len(), 0);

    let rs1 = register_service.finish_session(fake_id);
    assert!(rs1.is_none());

    let req = ReRegisterRequest::new();
    let host = HostAddr::V4(0, 0, 0, 0);
    let (rsp, svc) = register_service.re_register(&req, host);
    assert!(rsp.get_succeed());
    assert_eq!(rsp.get_msg(), "succeed");
    assert_eq!(svc.service_id(), ServiceId(0));
    assert_eq!(svc.service_port, 0);
    assert_eq!(svc.heartbeat_port, 0);
}

#[test]
fn test_rpc_server() {
    let config = Config {
        server_port: 11_000,
        service_port_base: 20000,
        heartbeat_port_base: 25000,
        heartbeat_interval: 100,
    };
    let mut rs = RegisterService::new(config);
    let host = HostAddr::V4(127, 0, 0, 1);

    let rsp = rs.register(10, host);
    let session_id = rsp.session_id;
    assert_eq!(rsp.service_port, 20_000);
    assert_eq!(rsp.heartbeat_port, 25_000);

    let (rsp, event) = rs.report_status(&status(false, false, session_id));
    assert!(rsp.succeed);
    assert!(event.is_none());
    assert_eq!(rsp.service_port, 20_000 + 1);
    assert_eq!(rsp.heartbeat_port, 25_000 + 1);
    assert_eq!(rsp.session_id, session_id);

    let (rsp, event) = rs.report_status(&status(true, true, session_id));
    assert!(rsp.succeed);
    let service = event.unwrap();
    assert_eq!(service.service_port, 20_000 + 1);
    assert_eq!(service.heartbeat_port, 25_000 + 1);
    assert_eq!(service.service_id(), ServiceId(10));
    assert_eq!(service.host, host);

    // the session is gone: reporting again no longer succeeds
    let (rsp, event) = rs.report_status(&status(true, true, session_id));
    assert!(!rsp.succeed);
    assert!(event.is_none());

    let mut req = ReRegisterRequest::new();
    req.set_heartbeat_port(21_000);
    req.set_service_port(22_000);
    let (rsp, service) = rs.re_register(&req, host);
    assert!(rsp.get_succeed());
    assert_eq!(service.heartbeat_port, 21_000);
    assert_eq!(service.service_port, 22_000);
}

#[test]
fn registration_step_scenario() {
    // a fresh registry with bases 21000 and 25000
    let mut rs = RegisterService::new(test_config());
    let host = HostAddr::V4(10, 0, 0, 2);

    let rsp = rs.register(100, host);
    assert_eq!(rsp.service_port, 21_000);
    assert_eq!(rsp.heartbeat_port, 25_000);
    let session_id = rsp.session_id;

    // the service port failed, the heartbeat port worked: only the
    // service port steps, under the same session
    let (rsp, event) = rs.report_status(&status(false, true, session_id));
    assert!(rsp.succeed);
    assert!(event.is_none());
    assert_eq!(rsp.service_port, 21_001);
    assert_eq!(rsp.heartbeat_port, 25_000);
    assert_eq!(rsp.session_id, session_id);

    // the mirrored case steps only the heartbeat port
    let (rsp, _) = rs.report_status(&status(true, false, session_id));
    assert_eq!(rsp.service_port, 21_001);
    assert_eq!(rsp.heartbeat_port, 25_001);

    // both succeeded: the session closes and exactly one service record
    // comes out
    let (rsp, event) = rs.report_status(&status(true, true, session_id));
    assert!(rsp.succeed);
    let service = event.unwrap();
    assert_eq!(service.service_id(), ServiceId(100));
    assert_eq!(service.service_port, 21_001);
    assert_eq!(service.heartbeat_port, 25_001);
    assert!(rs.sessions.is_empty());
}

#[test]
fn unknown_session_mutates_nothing() {
    let mut rs = RegisterService::new(test_config());
    let host = HostAddr::V4(10, 0, 0, 3);
    let rsp = rs.register(7, host);
    let known = rsp.session_id;

    let (rsp, event) = rs.report_status(&status(false, false, known + 1));
    assert!(!rsp.succeed);
    assert!(event.is_none());
    assert_eq!(rsp.service_port, 0);
    assert_eq!(rsp.heartbeat_port, 0);

    // the one open session is exactly as it was
    assert_eq!(rs.sessions.len(), 1);
    let s = rs.sessions.get(&known).unwrap();
    assert_eq!(s.service_port, 21_000);
    assert_eq!(s.heartbeat_port, 25_000);
}

#[test]
fn session_ids_are_fresh() {
    let mut ids = SessionIdGen::new();
    assert_eq!(ids.next(), 0);
    assert_eq!(ids.next(), 1);
    assert_eq!(ids.next(), 2);

    let mut rs = RegisterService::new(test_config());
    let host = HostAddr::V4(10, 0, 0, 4);
    let a = rs.register(1, host).session_id;
    let b = rs.register(2, host).session_id;
    assert_ne!(a, b);
}

#[test]
fn registry_tracks_services_by_target() {
    let mut registry = Registry::new();
    let host = HostAddr::V4(10, 0, 0, 5);
    let svc_a = Service::new(ServiceId(1), "a".to_string(), host, 21000, 25000);
    let svc_b = Service::new(ServiceId(2), "b".to_string(), host, 21001, 25001);

    assert!(!registry.has_service(&svc_a));
    registry.register_service(svc_a.clone(), 11);
    assert!(registry.has_service(&svc_a));
    assert!(!registry.has_service(&svc_b));
    registry.register_service(svc_b.clone(), 22);

    let all = registry.get_all_services();
    assert_eq!(all.len(), 2);
    assert_eq!(all[0], svc_a);
    assert_eq!(all[1], svc_b);
    assert_eq!(all[0].meta(), "a");

    // an unknown target id drops nothing
    assert!(registry.service_dropped(33).is_none());

    // a failed heartbeat drops exactly the service its target id names
    let dropped = registry.service_dropped(11).unwrap();
    assert_eq!(dropped, svc_a);
    let all = registry.get_all_services();
    assert_eq!(all.len(), 1);
    assert_eq!(all[0], svc_b);

    let detail = ServiceDetail::new(svc_b.clone(), 22);
    assert_eq!(detail.uuid, 22);
}

#[test]
fn negotiation_walks_candidate_ports() {
    let mut rs = RegisterService::new(test_config());
    let host = HostAddr::V4(10, 0, 0, 6);

    // the registering side and the registry, talking through messages
    let rsp = rs.register(55, host);
    let mut neg = Negotiation::begin(&rsp);
    assert!(neg.should_run_service());
    assert!(neg.should_run_heartbeat());
    assert_eq!(neg.service_port, 21_000);
    assert_eq!(neg.heartbeat_port, 25_000);

    // first round: the heartbeat responder came up, the service did not
    let req = neg.record_attempt(false, true);
    assert!(!req.service_succeed);
    assert!(req.heartbeat_succeed);
    assert!(!neg.done());

    let (rsp, _) = rs.report_status(&req);
    neg.on_status_response(&rsp).unwrap();
    assert_eq!(neg.service_port, 21_001);
    assert!(neg.should_run_service());
    assert!(!neg.should_run_heartbeat());

    // second round: the stepped service port worked
    let req = neg.record_attempt(true, false);
    assert!(req.service_succeed);
    assert!(req.heartbeat_succeed);
    assert!(neg.done());
    assert_eq!(neg.meta.service_port, Some(21_001));
    assert_eq!(neg.meta.heartbeat_port, Some(25_000));

    let (rsp, event) = rs.report_status(&req);
    assert!(rsp.succeed);
    let service = event.unwrap();
    assert_eq!(service.service_port, 21_001);
    assert_eq!(service.heartbeat_port, 25_000);
}

#[test]
fn negotiation_resets_when_registry_crashed() {
    let mut rs = RegisterService::new(test_config());
    let host = HostAddr::V4(10, 0, 0, 7);
    let rsp = rs.register(66, host);
    let mut neg = Negotiation::begin(&rsp);
    let req = neg.record_attempt(true, false);
    assert_eq!(neg.meta.service_port, Some(21_000));

    // the registry lost the session: the response resets everything
    let (rsp, _) = rs.report_status(&status(true, true, req.session_id + 1));
    assert!(!rsp.succeed);
    match neg.on_status_response(&rsp) {
        Err(RpcError::ServerCrashed) => {}
        _ => panic!("a lost session must reset the negotiation"),
    }
    assert_eq!(neg.meta.service_port, None);
    assert_eq!(neg.meta.heartbeat_port, None);
}

#[test]
fn meta_tracks_locked_ports() {
    let mut meta = Meta::new();
    assert!(!meta.has_service_port());
    assert!(!meta.has_heartbeat_port());
    assert!(!meta.has_both_port());

    meta.set_service_port(21000);
    assert!(meta.has_service_port());
    assert!(!meta.has_both_port());

    meta.set_heartbeat_port(25000);
    assert!(meta.has_both_port());

    meta.clean();
    assert!(!meta.has_service_port());
    assert!(!meta.has_heartbeat_port());
}

#[test]
fn watchdog_decisions() {
    let step = watchdog_decide(true, false, false);
    assert_eq!(step, WatchdogStep { re_register: true, stop: false, clear_heartbeat: false });
    let step = watchdog_decide(false, true, true);
    assert_eq!(step, WatchdogStep { re_register: false, stop: true, clear_heartbeat: true });

    assert_eq!(resume_retry_wait(&Some(true)), None);
    assert_eq!(resume_retry_wait(&Some(false)), Some(1000));
    assert_eq!(resume_retry_wait(&None), Some(1000));
}

#[test]
fn request_builders() {
    let req = register_request(ServiceId(42));
    assert_eq!(req.get_service_id(), 42);

    let req = re_register_request(ServiceId(42), 21000, 25000);
    assert_eq!(req.get_service_id(), 42);
    assert_eq!(req.get_service_port(), 21000);
    assert_eq!(req.get_heartbeat_port(), 25000);

    let cfg = ContainerConfig::new(1000, SockAddr::new(HostAddr::V4(127, 0, 0, 1), 9999));
    assert_eq!(cfg.heartbeat_interval, 1000);

    match RpcError::RpcErr("refused".to_string()) {
        RpcError::RpcErr(msg) => assert_eq!(msg, "refused"),
        RpcError::ServerCrashed => panic!("wrong variant"),
    }
}

#[test]
fn service_record_accessors() {
    let host = HostAddr::V4(10, 1, 2, 3);
    let svc = Service::new(ServiceId(5), "exe:meta".to_string(), host, 21000, 25000);
    assert_eq!(svc.service_id(), ServiceId(5));
    assert_eq!(svc.meta(), "exe:meta");
    assert_eq!(svc.service_addr(), SockAddr::new(host, 21000));
    assert_eq!(svc.heartbeat_addr(), SockAddr::new(host, 25000));
    assert_eq!(ServiceId(5).value(), 5);
}
