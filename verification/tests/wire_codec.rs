use service_registry::heartbeat::heartbeat_proto::{HeartbeatRequest, HeartbeatResponse};
use service_registry::registry_proto::{
    RegisterRequest, RegisterResponse, StatusRequest, StatusResponse, ReRegisterRequest,
    ReRegisterResponse,
};
use service_registry::wire::{decode_frame, encode_frame};

#[test]
fn frame_encode_concrete() {
    let framed = encode_frame(&[1, 2, 3]);
    assert_eq!(framed, vec![0, 0, 0, 3, 1, 2, 3]);
}

#[test]
fn frame_round_trip() {
    let payload: Vec<u8> = vec![9, 8, 7, 6, 5];
    let mut framed = encode_frame(&payload);
    framed.push(0xFF); // trailing bytes of the next frame stay untouched
    let (decoded, end) = decode_frame(&framed).unwrap();
    assert_eq!(decoded, payload);
    assert_eq!(end, 9);
}

#[test]
fn frame_incomplete_is_none() {
    assert!(decode_frame(&[0, 0]).is_none());
    // length prefix promises more bytes than follow
    assert!(decode_frame(&[0, 0, 0, 4, 1, 2, 3]).is_none());
}

#[test]
fn register_request_encoding_concrete() {
    let mut req = RegisterRequest::new();
    req.set_service_id(1);
    assert_eq!(req.write_to_bytes(), vec![0x08, 0x01]);

    req.set_service_id(300);
    assert_eq!(req.write_to_bytes(), vec![0x08, 0xAC, 0x02]);

    // the all-defaults message encodes to nothing at all
    assert_eq!(RegisterRequest::new().write_to_bytes(), Vec::<u8>::new());
}

#[test]
fn register_request_round_trip() {
    let mut req = RegisterRequest::new();
    req.set_service_id(0xDEAD_BEEF_0042);
    let parsed = RegisterRequest::parse_from_bytes(&req.write_to_bytes()).unwrap();
    assert_eq!(parsed, req);
}

#[test]
fn register_response_encoding_concrete() {
    let mut rsp = RegisterResponse::new();
    rsp.set_heartbeat_port(25000);
    rsp.set_service_port(21000);
    rsp.set_session_id(7);
    assert_eq!(
        rsp.write_to_bytes(),
        vec![0x08, 0xA8, 0xC3, 0x01, 0x10, 0x88, 0xA4, 0x01, 0x18, 0x07]
    );
    let parsed = RegisterResponse::parse_from_bytes(&rsp.write_to_bytes()).unwrap();
    assert_eq!(parsed, rsp);
}

#[test]
fn status_request_round_trip() {
    let mut req = StatusRequest::new();
    req.set_heartbeat_succeed(true);
    req.set_session_id(12);
    assert_eq!(req.write_to_bytes(), vec![0x08, 0x01, 0x18, 0x0C]);
    let parsed = StatusRequest::parse_from_bytes(&req.write_to_bytes()).unwrap();
    assert_eq!(parsed, req);
    assert!(parsed.get_heartbeat_succeed());
    assert!(!parsed.get_service_succeed());
    assert_eq!(parsed.get_session_id(), 12);
}

#[test]
fn status_response_round_trip() {
    let mut rsp = StatusResponse::new();
    rsp.set_succeed(true);
    rsp.set_heartbeat_port(25001);
    rsp.set_service_port(21001);
    rsp.set_session_id(3);
    let parsed = StatusResponse::parse_from_bytes(&rsp.write_to_bytes()).unwrap();
    assert_eq!(parsed, rsp);
}

#[test]
fn re_register_request_round_trip() {
    let mut req = ReRegisterRequest::new();
    req.set_heartbeat_port(45000);
    req.set_service_port(55000);
    req.set_service_id(1000);
    let parsed = ReRegisterRequest::parse_from_bytes(&req.write_to_bytes()).unwrap();
    assert_eq!(parsed, req);
}

#[test]
fn re_register_response_round_trip() {
    let mut rsp = ReRegisterResponse::new();
    rsp.set_succeed(true);
    rsp.set_msg("succeed".to_string());
    let bytes = rsp.write_to_bytes();
    assert_eq!(
        bytes,
        vec![0x08, 0x01, 0x12, 0x07, b's', b'u', b'c', b'c', b'e', b'e', b'd']
    );
    let parsed = ReRegisterResponse::parse_from_bytes(&bytes).unwrap();
    assert_eq!(parsed, rsp);
    assert_eq!(parsed.get_msg(), "succeed");
    let mut parsed = parsed;
    assert_eq!(parsed.take_msg(), "succeed".to_string());
    assert_eq!(parsed.get_msg(), "");
}

#[test]
fn heartbeat_messages_round_trip() {
    let mut req = HeartbeatRequest::new();
    req.set_msg(1);
    assert_eq!(req.write_to_bytes(), vec![0x08, 0x01]);
    assert_eq!(
        HeartbeatRequest::parse_from_bytes(&req.write_to_bytes()).unwrap(),
        req
    );

    let mut rsp = HeartbeatResponse::new();
    rsp.set_msg(11);
    assert_eq!(
        HeartbeatResponse::parse_from_bytes(&rsp.write_to_bytes()).unwrap(),
        rsp
    );

    // zero-valued messages encode to nothing and parse back from nothing
    assert_eq!(HeartbeatRequest::new().write_to_bytes(), Vec::<u8>::new());
    assert_eq!(
        HeartbeatRequest::parse_from_bytes(&[]).unwrap(),
        HeartbeatRequest::new()
    );
}

#[test]
fn varint_at_the_largest_value() {
    let mut req = RegisterRequest::new();
    req.set_service_id(u64::MAX);
    let bytes = req.write_to_bytes();
    // one tag byte, then ten bytes of varint
    assert_eq!(bytes.len(), 11);
    assert_eq!(
        bytes,
        vec![0x08, 0xFF, 0xFF, 0xFF, 0xFF, 0xFF, 0xFF, 0xFF, 0xFF, 0xFF, 0x01]
    );
    let parsed = RegisterRequest::parse_from_bytes(&bytes).unwrap();
    assert_eq!(parsed.get_service_id(), u64::MAX);
}

#[test]
fn overlong_varint_is_rejected() {
    // eleven continuation bytes can never be a value this codec reads
    let bytes = vec![
        0x08, 0xFF, 0xFF, 0xFF, 0xFF, 0xFF, 0xFF, 0xFF, 0xFF, 0xFF, 0xFF, 0x01,
    ];
    assert!(RegisterRequest::parse_from_bytes(&bytes).is_none());
    // a ten-byte varint above the 64-bit range is rejected too
    let bytes = vec![
        0x08, 0xFF, 0xFF, 0xFF, 0xFF, 0xFF, 0xFF, 0xFF, 0xFF, 0xFF, 0x7F,
    ];
    assert!(RegisterRequest::parse_from_bytes(&bytes).is_none());
}

#[test]
fn parse_rejects_malformed_input() {
    // truncated varint
    assert!(RegisterRequest::parse_from_bytes(&[0x08]).is_none());
    // wire type this codec does not emit
    assert!(RegisterRequest::parse_from_bytes(&[0x09, 0, 0, 0, 0, 0, 0, 0, 0]).is_none());
    // unknown field number
    assert!(RegisterRequest::parse_from_bytes(&[0x20, 0x01]).is_none());
    // field number zero is never valid
    assert!(RegisterRequest::parse_from_bytes(&[0x00, 0x01]).is_none());
    // a length-prefixed field where a numeric one is expected
    assert!(RegisterRequest::parse_from_bytes(&[0x0A, 0x01, 0x07]).is_none());
}

#[test]
fn parse_rejects_non_ascii_text() {
    // succeed flag, then a message field holding one byte above 127
    assert!(ReRegisterResponse::parse_from_bytes(&[0x08, 0x01, 0x12, 0x01, 0xC3]).is_none());
    // the same shape with an ASCII byte parses
    let parsed = ReRegisterResponse::parse_from_bytes(&[0x08, 0x01, 0x12, 0x01, b'x']).unwrap();
    assert!(parsed.get_succeed());
    assert_eq!(parsed.get_msg(), "x");
}

#[test]
fn parse_takes_fields_in_any_order_last_wins() {
    // session id first, then heartbeat port, then session id again
    let bytes = vec![0x18, 0x05, 0x08, 0x02, 0x18, 0x09];
    let parsed = RegisterResponse::parse_from_bytes(&bytes).unwrap();
    assert_eq!(parsed.get_session_id(), 9);
    assert_eq!(parsed.get_heartbeat_port(), 2);
    assert_eq!(parsed.get_service_port(), 0);
}
