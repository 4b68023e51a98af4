//! The messages of the registration RPC surface: register, report status,
//! and re-register, each with its wire encoding and a proof that decoding
//! undoes encoding.

use vstd::prelude::*;

use crate::wire::{
    SpecField, WireField, WireMessage, field_views, fields_wf, from_fields_rec, msg_dec, msg_enc,
    encode_message, parse_message, lemma_from_fields_concat, lemma_from_fields_singleton,
    lemma_msg_round_trip, is_ascii_bytes, ascii_chars, ascii_bytes_of, ascii_bytes_to_string,
};

verus! {

/// Asks the registry for candidate ports, naming the caller's service id.
#[derive(Clone, Copy, Debug, PartialEq, Eq, Structural)]
pub struct RegisterRequest {
    pub service_id: u64,
}

impl View for RegisterRequest {
    type V = RegisterRequest;

    open spec fn view(&self) -> RegisterRequest {
        *self
    }
}

impl WireMessage for RegisterRequest {
    open spec fn initial() -> Self {
        RegisterRequest { service_id: 0 }
    }

    open spec fn apply_field(prev: Self, f: SpecField) -> Option<Self> {
        match f {
            SpecField::Varint(num, v) => if num == 1 {
                Some(RegisterRequest { service_id: v })
            } else {
                None
            },
            SpecField::Bytes(_, _) => None,
        }
    }

    open spec fn field_list(m: Self) -> Seq<SpecField> {
        if m.service_id == 0 {
            Seq::empty()
        } else {
            seq![SpecField::Varint(1, m.service_id)]
        }
    }

    open spec fn enc_wf(m: Self) -> bool {
        true
    }

    fn initial_msg() -> (r: Self) {
        RegisterRequest { service_id: 0 }
    }

    fn apply(self, f: &WireField) -> (r: Option<Self>) {
        match f {
            WireField::Varint(num, v) => if *num == 1 {
                Some(RegisterRequest { service_id: *v })
            } else {
                None
            },
            WireField::Bytes(_, _) => None,
        }
    }

    fn fields_vec(&self) -> (r: Vec<WireField>) {
        let mut v: Vec<WireField> = Vec::new();
        if self.service_id != 0 {
            v.push(WireField::Varint(1, self.service_id));
        }
        proof {
            assert(field_views(v@) =~= Self::field_list(self@));
        }
        v
    }
}

impl Default for RegisterRequest {
    /// The message with every field at its default.
    fn default() -> (r: Self)
        ensures
            r == RegisterRequest::initial(),
    {
        RegisterRequest { service_id: 0 }
    }
}

impl RegisterRequest {
    /// A request with every field at its default.
    pub fn new() -> (r: RegisterRequest)
        ensures
            r == RegisterRequest::initial(),
    {
        RegisterRequest { service_id: 0 }
    }

    /// Resets the service id to its default.
    pub fn clear_service_id(&mut self)
        ensures
            final(self).service_id == 0,
    {
        self.service_id = 0;
    }

    /// Sets the service id.
    pub fn set_service_id(&mut self, v: u64)
        ensures
            final(self).service_id == v,
    {
        self.service_id = v;
    }

    /// Reads the service id.
    pub fn get_service_id(&self) -> (r: u64)
        ensures
            r == self.service_id,
    {
        self.service_id
    }

    /// Serializes this message for the wire.
    pub fn write_to_bytes(&self) -> (r: Vec<u8>)
        ensures
            r@ == msg_enc::<RegisterRequest>(*self),
    {
        encode_message(self)
    }

    /// Parses one message from its wire bytes.
    pub fn parse_from_bytes(bytes: &[u8]) -> (r: Option<RegisterRequest>)
        ensures
            r == msg_dec::<RegisterRequest>(bytes@),
    {
        parse_message(bytes)
    }
}

/// Decoding undoes encoding for `RegisterRequest`.
pub proof fn lemma_register_request_round_trip(m: RegisterRequest)
    ensures
        msg_dec::<RegisterRequest>(msg_enc::<RegisterRequest>(m)) == Some(m),
{
    if m.service_id != 0 {
        lemma_from_fields_singleton::<RegisterRequest>(
            RegisterRequest::initial(),
            SpecField::Varint(1, m.service_id),
        );
    }
    lemma_msg_round_trip::<RegisterRequest>(m);
}

/// The registry's answer to `RegisterRequest`: the candidate ports and the
/// session under which the negotiation continues.
#[derive(Clone, Copy, Debug, PartialEq, Eq, Structural)]
pub struct RegisterResponse {
    pub heartbeat_port: u32,
    pub service_port: u32,
    pub session_id: u64,
}

impl View for RegisterResponse {
    type V = RegisterResponse;

    open spec fn view(&self) -> RegisterResponse {
        *self
    }
}

impl WireMessage for RegisterResponse {
    open spec fn initial() -> Self {
        RegisterResponse { heartbeat_port: 0, service_port: 0, session_id: 0 }
    }

    open spec fn apply_field(prev: Self, f: SpecField) -> Option<Self> {
        match f {
            SpecField::Varint(num, v) => if num == 1 {
                Some(RegisterResponse { heartbeat_port: v as u32, ..prev })
            } else if num == 2 {
                Some(RegisterResponse { service_port: v as u32, ..prev })
            } else if num == 3 {
                Some(RegisterResponse { session_id: v, ..prev })
            } else {
                None
            },
            SpecField::Bytes(_, _) => None,
        }
    }

    open spec fn field_list(m: Self) -> Seq<SpecField> {
        (if m.heartbeat_port == 0 {
            Seq::<SpecField>::empty()
        } else {
            seq![SpecField::Varint(1, m.heartbeat_port as u64)]
        }) + (if m.service_port == 0 {
            Seq::<SpecField>::empty()
        } else {
            seq![SpecField::Varint(2, m.service_port as u64)]
        }) + (if m.session_id == 0 {
            Seq::<SpecField>::empty()
        } else {
            seq![SpecField::Varint(3, m.session_id)]
        })
    }

    open spec fn enc_wf(m: Self) -> bool {
        true
    }

    fn initial_msg() -> (r: Self) {
        RegisterResponse { heartbeat_port: 0, service_port: 0, session_id: 0 }
    }

    fn apply(self, f: &WireField) -> (r: Option<Self>) {
        match f {
            WireField::Varint(num, v) => if *num == 1 {
                Some(RegisterResponse { heartbeat_port: *v as u32, ..self })
            } else if *num == 2 {
                Some(RegisterResponse { service_port: *v as u32, ..self })
            } else if *num == 3 {
                Some(RegisterResponse { session_id: *v, ..self })
            } else {
                None
            },
            WireField::Bytes(_, _) => None,
        }
    }

    fn fields_vec(&self) -> (r: Vec<WireField>) {
        let mut v: Vec<WireField> = Vec::new();
        if self.heartbeat_port != 0 {
            v.push(WireField::Varint(1, self.heartbeat_port as u64));
        }
        if self.service_port != 0 {
            v.push(WireField::Varint(2, self.service_port as u64));
        }
        if self.session_id != 0 {
            v.push(WireField::Varint(3, self.session_id));
        }
        proof {
            assert(field_views(v@) =~= Self::field_list(self@));
        }
        v
    }
}

impl Default for RegisterResponse {
    /// The message with every field at its default.
    fn default() -> (r: Self)
        ensures
            r == RegisterResponse::initial(),
    {
        RegisterResponse { heartbeat_port: 0, service_port: 0, session_id: 0 }
    }
}

impl RegisterResponse {
    /// A response with every field at its default.
    pub fn new() -> (r: RegisterResponse)
        ensures
            r == RegisterResponse::initial(),
    {
        RegisterResponse { heartbeat_port: 0, service_port: 0, session_id: 0 }
    }

    /// Resets the heartbeat port to its default.
    pub fn clear_heartbeat_port(&mut self)
        ensures
            *final(self) == (RegisterResponse { heartbeat_port: 0, ..*old(self) }),
    {
        self.heartbeat_port = 0;
    }

    /// Sets the heartbeat port.
    pub fn set_heartbeat_port(&mut self, v: u32)
        ensures
            *final(self) == (RegisterResponse { heartbeat_port: v, ..*old(self) }),
    {
        self.heartbeat_port = v;
    }

    /// Reads the heartbeat port.
    pub fn get_heartbeat_port(&self) -> (r: u32)
        ensures
            r == self.heartbeat_port,
    {
        self.heartbeat_port
    }

    /// Resets the service port to its default.
    pub fn clear_service_port(&mut self)
        ensures
            *final(self) == (RegisterResponse { service_port: 0, ..*old(self) }),
    {
        self.service_port = 0;
    }

    /// Sets the service port.
    pub fn set_service_port(&mut self, v: u32)
        ensures
            *final(self) == (RegisterResponse { service_port: v, ..*old(self) }),
    {
        self.service_port = v;
    }

    /// Reads the service port.
    pub fn get_service_port(&self) -> (r: u32)
        ensures
            r == self.service_port,
    {
        self.service_port
    }

    /// Resets the session id to its default.
    pub fn clear_session_id(&mut self)
        ensures
            *final(self) == (RegisterResponse { session_id: 0, ..*old(self) }),
    {
        self.session_id = 0;
    }

    /// Sets the session id.
    pub fn set_session_id(&mut self, v: u64)
        ensures
            *final(self) == (RegisterResponse { session_id: v, ..*old(self) }),
    {
        self.session_id = v;
    }

    /// Reads the session id.
    pub fn get_session_id(&self) -> (r: u64)
        ensures
            r == self.session_id,
    {
        self.session_id
    }

    /// Serializes this message for the wire.
    pub fn write_to_bytes(&self) -> (r: Vec<u8>)
        ensures
            r@ == msg_enc::<RegisterResponse>(*self),
    {
        encode_message(self)
    }

    /// Parses one message from its wire bytes.
    pub fn parse_from_bytes(bytes: &[u8]) -> (r: Option<RegisterResponse>)
        ensures
            r == msg_dec::<RegisterResponse>(bytes@),
    {
        parse_message(bytes)
    }
}

/// Decoding undoes encoding for `RegisterResponse`.
pub proof fn lemma_register_response_round_trip(m: RegisterResponse)
    ensures
        msg_dec::<RegisterResponse>(msg_enc::<RegisterResponse>(m)) == Some(m),
{
    let a = if m.heartbeat_port == 0 {
        Seq::<SpecField>::empty()
    } else {
        seq![SpecField::Varint(1, m.heartbeat_port as u64)]
    };
    let b = if m.service_port == 0 {
        Seq::<SpecField>::empty()
    } else {
        seq![SpecField::Varint(2, m.service_port as u64)]
    };
    let c = if m.session_id == 0 {
        Seq::<SpecField>::empty()
    } else {
        seq![SpecField::Varint(3, m.session_id)]
    };
    let m0 = RegisterResponse::initial();
    let m1 = RegisterResponse { heartbeat_port: m.heartbeat_port, ..m0 };
    let m2 = RegisterResponse { service_port: m.service_port, ..m1 };
    assert((a + b) + c =~= a + (b + c));
    lemma_from_fields_concat::<RegisterResponse>(m0, a, b + c);
    if m.heartbeat_port != 0 {
        lemma_from_fields_singleton::<RegisterResponse>(
            m0,
            SpecField::Varint(1, m.heartbeat_port as u64),
        );
    }
    assert(from_fields_rec::<RegisterResponse>(m0, a) == Some(m1));
    lemma_from_fields_concat::<RegisterResponse>(m1, b, c);
    if m.service_port != 0 {
        lemma_from_fields_singleton::<RegisterResponse>(
            m1,
            SpecField::Varint(2, m.service_port as u64),
        );
    }
    assert(from_fields_rec::<RegisterResponse>(m1, b) == Some(m2));
    if m.session_id != 0 {
        lemma_from_fields_singleton::<RegisterResponse>(m2, SpecField::Varint(3, m.session_id));
    }
    assert(from_fields_rec::<RegisterResponse>(m2, c) == Some(m));
    assert(RegisterResponse::field_list(m) == a + b + c);
    lemma_msg_round_trip::<RegisterResponse>(m);
}

/// Reports whether the caller could run on the candidate ports of its
/// session.
#[derive(Clone, Copy, Debug, PartialEq, Eq, Structural)]
pub struct StatusRequest {
    pub heartbeat_succeed: bool,
    pub service_succeed: bool,
    pub session_id: u64,
}

impl View for StatusRequest {
    type V = StatusRequest;

    open spec fn view(&self) -> StatusRequest {
        *self
    }
}

impl WireMessage for StatusRequest {
    open spec fn initial() -> Self {
        StatusRequest { heartbeat_succeed: false, service_succeed: false, session_id: 0 }
    }

    open spec fn apply_field(prev: Self, f: SpecField) -> Option<Self> {
        match f {
            SpecField::Varint(num, v) => if num == 1 {
                Some(StatusRequest { heartbeat_succeed: v != 0, ..prev })
            } else if num == 2 {
                Some(StatusRequest { service_succeed: v != 0, ..prev })
            } else if num == 3 {
                Some(StatusRequest { session_id: v, ..prev })
            } else {
                None
            },
            SpecField::Bytes(_, _) => None,
        }
    }

    open spec fn field_list(m: Self) -> Seq<SpecField> {
        (if !m.heartbeat_succeed {
            Seq::<SpecField>::empty()
        } else {
            seq![SpecField::Varint(1, 1)]
        }) + (if !m.service_succeed {
            Seq::<SpecField>::empty()
        } else {
            seq![SpecField::Varint(2, 1)]
        }) + (if m.session_id == 0 {
            Seq::<SpecField>::empty()
        } else {
            seq![SpecField::Varint(3, m.session_id)]
        })
    }

    open spec fn enc_wf(m: Self) -> bool {
        true
    }

    fn initial_msg() -> (r: Self) {
        StatusRequest { heartbeat_succeed: false, service_succeed: false, session_id: 0 }
    }

    fn apply(self, f: &WireField) -> (r: Option<Self>) {
        match f {
            WireField::Varint(num, v) => if *num == 1 {
                Some(StatusRequest { heartbeat_succeed: *v != 0, ..self })
            } else if *num == 2 {
                Some(StatusRequest { service_succeed: *v != 0, ..self })
            } else if *num == 3 {
                Some(StatusRequest { session_id: *v, ..self })
            } else {
                None
            },
            WireField::Bytes(_, _) => None,
        }
    }

    fn fields_vec(&self) -> (r: Vec<WireField>) {
        let mut v: Vec<WireField> = Vec::new();
        if self.heartbeat_succeed {
            v.push(WireField::Varint(1, 1));
        }
        if self.service_succeed {
            v.push(WireField::Varint(2, 1));
        }
        if self.session_id != 0 {
            v.push(WireField::Varint(3, self.session_id));
        }
        proof {
            assert(field_views(v@) =~= Self::field_list(self@));
        }
        v
    }
}

impl Default for StatusRequest {
    /// The message with every field at its default.
    fn default() -> (r: Self)
        ensures
            r == StatusRequest::initial(),
    {
        StatusRequest { heartbeat_succeed: false, service_succeed: false, session_id: 0 }
    }
}

impl StatusRequest {
    /// A request with every field at its default.
    pub fn new() -> (r: StatusRequest)
        ensures
            r == StatusRequest::initial(),
    {
        StatusRequest { heartbeat_succeed: false, service_succeed: false, session_id: 0 }
    }

    /// Resets the heartbeat flag to its default.
    pub fn clear_heartbeat_succeed(&mut self)
        ensures
            *final(self) == (StatusRequest { heartbeat_succeed: false, ..*old(self) }),
    {
        self.heartbeat_succeed = false;
    }

    /// Sets the heartbeat flag.
    pub fn set_heartbeat_succeed(&mut self, v: bool)
        ensures
            *final(self) == (StatusRequest { heartbeat_succeed: v, ..*old(self) }),
    {
        self.heartbeat_succeed = v;
    }

    /// Reads the heartbeat flag.
    pub fn get_heartbeat_succeed(&self) -> (r: bool)
        ensures
            r == self.heartbeat_succeed,
    {
        self.heartbeat_succeed
    }

    /// Resets the service flag to its default.
    pub fn clear_service_succeed(&mut self)
        ensures
            *final(self) == (StatusRequest { service_succeed: false, ..*old(self) }),
    {
        self.service_succeed = false;
    }

    /// Sets the service flag.
    pub fn set_service_succeed(&mut self, v: bool)
        ensures
            *final(self) == (StatusRequest { service_succeed: v, ..*old(self) }),
    {
        self.service_succeed = v;
    }

    /// Reads the service flag.
    pub fn get_service_succeed(&self) -> (r: bool)
        ensures
            r == self.service_succeed,
    {
        self.service_succeed
    }

    /// Resets the session id to its default.
    pub fn clear_session_id(&mut self)
        ensures
            *final(self) == (StatusRequest { session_id: 0, ..*old(self) }),
    {
        self.session_id = 0;
    }

    /// Sets the session id.
    pub fn set_session_id(&mut self, v: u64)
        ensures
            *final(self) == (StatusRequest { session_id: v, ..*old(self) }),
    {
        self.session_id = v;
    }

    /// Reads the session id.
    pub fn get_session_id(&self) -> (r: u64)
        ensures
            r == self.session_id,
    {
        self.session_id
    }

    /// Serializes this message for the wire.
    pub fn write_to_bytes(&self) -> (r: Vec<u8>)
        ensures
            r@ == msg_enc::<StatusRequest>(*self),
    {
        encode_message(self)
    }

    /// Parses one message from its wire bytes.
    pub fn parse_from_bytes(bytes: &[u8]) -> (r: Option<StatusRequest>)
        ensures
            r == msg_dec::<StatusRequest>(bytes@),
    {
        parse_message(bytes)
    }
}

/// Decoding undoes encoding for `StatusRequest`.
pub proof fn lemma_status_request_round_trip(m: StatusRequest)
    ensures
        msg_dec::<StatusRequest>(msg_enc::<StatusRequest>(m)) == Some(m),
{
    let a = if !m.heartbeat_succeed {
        Seq::<SpecField>::empty()
    } else {
        seq![SpecField::Varint(1, 1)]
    };
    let b = if !m.service_succeed {
        Seq::<SpecField>::empty()
    } else {
        seq![SpecField::Varint(2, 1)]
    };
    let c = if m.session_id == 0 {
        Seq::<SpecField>::empty()
    } else {
        seq![SpecField::Varint(3, m.session_id)]
    };
    let m0 = StatusRequest::initial();
    let m1 = StatusRequest { heartbeat_succeed: m.heartbeat_succeed, ..m0 };
    let m2 = StatusRequest { service_succeed: m.service_succeed, ..m1 };
    assert((a + b) + c =~= a + (b + c));
    lemma_from_fields_concat::<StatusRequest>(m0, a, b + c);
    if m.heartbeat_succeed {
        lemma_from_fields_singleton::<StatusRequest>(m0, SpecField::Varint(1, 1));
    }
    assert(from_fields_rec::<StatusRequest>(m0, a) == Some(m1));
    lemma_from_fields_concat::<StatusRequest>(m1, b, c);
    if m.service_succeed {
        lemma_from_fields_singleton::<StatusRequest>(m1, SpecField::Varint(2, 1));
    }
    assert(from_fields_rec::<StatusRequest>(m1, b) == Some(m2));
    if m.session_id != 0 {
        lemma_from_fields_singleton::<StatusRequest>(m2, SpecField::Varint(3, m.session_id));
    }
    assert(from_fields_rec::<StatusRequest>(m2, c) == Some(m));
    assert(StatusRequest::field_list(m) == a + b + c);
    lemma_msg_round_trip::<StatusRequest>(m);
}

/// The registry's answer to `StatusRequest`: whether the session was still
/// known, and the ports to try next.
#[derive(Clone, Copy, Debug, PartialEq, Eq, Structural)]
pub struct StatusResponse {
    pub succeed: bool,
    pub heartbeat_port: u32,
    pub service_port: u32,
    pub session_id: u64,
}

impl View for StatusResponse {
    type V = StatusResponse;

    open spec fn view(&self) -> StatusResponse {
        *self
    }
}

impl WireMessage for StatusResponse {
    open spec fn initial() -> Self {
        StatusResponse { succeed: false, heartbeat_port: 0, service_port: 0, session_id: 0 }
    }

    open spec fn apply_field(prev: Self, f: SpecField) -> Option<Self> {
        match f {
            SpecField::Varint(num, v) => if num == 1 {
                Some(StatusResponse { succeed: v != 0, ..prev })
            } else if num == 2 {
                Some(StatusResponse { heartbeat_port: v as u32, ..prev })
            } else if num == 3 {
                Some(StatusResponse { service_port: v as u32, ..prev })
            } else if num == 4 {
                Some(StatusResponse { session_id: v, ..prev })
            } else {
                None
            },
            SpecField::Bytes(_, _) => None,
        }
    }

    open spec fn field_list(m: Self) -> Seq<SpecField> {
        (if !m.succeed {
            Seq::<SpecField>::empty()
        } else {
            seq![SpecField::Varint(1, 1)]
        }) + (if m.heartbeat_port == 0 {
            Seq::<SpecField>::empty()
        } else {
            seq![SpecField::Varint(2, m.heartbeat_port as u64)]
        }) + (if m.service_port == 0 {
            Seq::<SpecField>::empty()
        } else {
            seq![SpecField::Varint(3, m.service_port as u64)]
        }) + (if m.session_id == 0 {
            Seq::<SpecField>::empty()
        } else {
            seq![SpecField::Varint(4, m.session_id)]
        })
    }

    open spec fn enc_wf(m: Self) -> bool {
        true
    }

    fn initial_msg() -> (r: Self) {
        StatusResponse { succeed: false, heartbeat_port: 0, service_port: 0, session_id: 0 }
    }

    fn apply(self, f: &WireField) -> (r: Option<Self>) {
        match f {
            WireField::Varint(num, v) => if *num == 1 {
                Some(StatusResponse { succeed: *v != 0, ..self })
            } else if *num == 2 {
                Some(StatusResponse { heartbeat_port: *v as u32, ..self })
            } else if *num == 3 {
                Some(StatusResponse { service_port: *v as u32, ..self })
            } else if *num == 4 {
                Some(StatusResponse { session_id: *v, ..self })
            } else {
                None
            },
            WireField::Bytes(_, _) => None,
        }
    }

    fn fields_vec(&self) -> (r: Vec<WireField>) {
        let mut v: Vec<WireField> = Vec::new();
        if self.succeed {
            v.push(WireField::Varint(1, 1));
        }
        if self.heartbeat_port != 0 {
            v.push(WireField::Varint(2, self.heartbeat_port as u64));
        }
        if self.service_port != 0 {
            v.push(WireField::Varint(3, self.service_port as u64));
        }
        if self.session_id != 0 {
            v.push(WireField::Varint(4, self.session_id));
        }
        proof {
            assert(field_views(v@) =~= Self::field_list(self@));
        }
        v
    }
}

impl Default for StatusResponse {
    /// The message with every field at its default.
    fn default() -> (r: Self)
        ensures
            r == StatusResponse::initial(),
    {
        StatusResponse { succeed: false, heartbeat_port: 0, service_port: 0, session_id: 0 }
    }
}

impl StatusResponse {
    /// A response with every field at its default.
    pub fn new() -> (r: StatusResponse)
        ensures
            r == StatusResponse::initial(),
    {
        StatusResponse { succeed: false, heartbeat_port: 0, service_port: 0, session_id: 0 }
    }

    /// Resets the success flag to its default.
    pub fn clear_succeed(&mut self)
        ensures
            *final(self) == (StatusResponse { succeed: false, ..*old(self) }),
    {
        self.succeed = false;
    }

    /// Sets the success flag.
    pub fn set_succeed(&mut self, v: bool)
        ensures
            *final(self) == (StatusResponse { succeed: v, ..*old(self) }),
    {
        self.succeed = v;
    }

    /// Reads the success flag.
    pub fn get_succeed(&self) -> (r: bool)
        ensures
            r == self.succeed,
    {
        self.succeed
    }

    /// Resets the heartbeat port to its default.
    pub fn clear_heartbeat_port(&mut self)
        ensures
            *final(self) == (StatusResponse { heartbeat_port: 0, ..*old(self) }),
    {
        self.heartbeat_port = 0;
    }

    /// Sets the heartbeat port.
    pub fn set_heartbeat_port(&mut self, v: u32)
        ensures
            *final(self) == (StatusResponse { heartbeat_port: v, ..*old(self) }),
    {
        self.heartbeat_port = v;
    }

    /// Reads the heartbeat port.
    pub fn get_heartbeat_port(&self) -> (r: u32)
        ensures
            r == self.heartbeat_port,
    {
        self.heartbeat_port
    }

    /// Resets the service port to its default.
    pub fn clear_service_port(&mut self)
        ensures
            *final(self) == (StatusResponse { service_port: 0, ..*old(self) }),
    {
        self.service_port = 0;
    }

    /// Sets the service port.
    pub fn set_service_port(&mut self, v: u32)
        ensures
            *final(self) == (StatusResponse { service_port: v, ..*old(self) }),
    {
        self.service_port = v;
    }

    /// Reads the service port.
    pub fn get_service_port(&self) -> (r: u32)
        ensures
            r == self.service_port,
    {
        self.service_port
    }

    /// Resets the session id to its default.
    pub fn clear_session_id(&mut self)
        ensures
            *final(self) == (StatusResponse { session_id: 0, ..*old(self) }),
    {
        self.session_id = 0;
    }

    /// Sets the session id.
    pub fn set_session_id(&mut self, v: u64)
        ensures
            *final(self) == (StatusResponse { session_id: v, ..*old(self) }),
    {
        self.session_id = v;
    }

    /// Reads the session id.
    pub fn get_session_id(&self) -> (r: u64)
        ensures
            r == self.session_id,
    {
        self.session_id
    }

    /// Serializes this message for the wire.
    pub fn write_to_bytes(&self) -> (r: Vec<u8>)
        ensures
            r@ == msg_enc::<StatusResponse>(*self),
    {
        encode_message(self)
    }

    /// Parses one message from its wire bytes.
    pub fn parse_from_bytes(bytes: &[u8]) -> (r: Option<StatusResponse>)
        ensures
            r == msg_dec::<StatusResponse>(bytes@),
    {
        parse_message(bytes)
    }
}

/// Decoding undoes encoding for `StatusResponse`.
pub proof fn lemma_status_response_round_trip(m: StatusResponse)
    ensures
        msg_dec::<StatusResponse>(msg_enc::<StatusResponse>(m)) == Some(m),
{
    let a = if !m.succeed {
        Seq::<SpecField>::empty()
    } else {
        seq![SpecField::Varint(1, 1)]
    };
    let b = if m.heartbeat_port == 0 {
        Seq::<SpecField>::empty()
    } else {
        seq![SpecField::Varint(2, m.heartbeat_port as u64)]
    };
    let c = if m.service_port == 0 {
        Seq::<SpecField>::empty()
    } else {
        seq![SpecField::Varint(3, m.service_port as u64)]
    };
    let d = if m.session_id == 0 {
        Seq::<SpecField>::empty()
    } else {
        seq![SpecField::Varint(4, m.session_id)]
    };
    let m0 = StatusResponse::initial();
    let m1 = StatusResponse { succeed: m.succeed, ..m0 };
    let m2 = StatusResponse { heartbeat_port: m.heartbeat_port, ..m1 };
    let m3 = StatusResponse { service_port: m.service_port, ..m2 };
    assert(((a + b) + c) + d =~= a + (b + (c + d)));
    lemma_from_fields_concat::<StatusResponse>(m0, a, b + (c + d));
    if m.succeed {
        lemma_from_fields_singleton::<StatusResponse>(m0, SpecField::Varint(1, 1));
    }
    assert(from_fields_rec::<StatusResponse>(m0, a) == Some(m1));
    lemma_from_fields_concat::<StatusResponse>(m1, b, c + d);
    if m.heartbeat_port != 0 {
        lemma_from_fields_singleton::<StatusResponse>(
            m1,
            SpecField::Varint(2, m.heartbeat_port as u64),
        );
    }
    assert(from_fields_rec::<StatusResponse>(m1, b) == Some(m2));
    lemma_from_fields_concat::<StatusResponse>(m2, c, d);
    if m.service_port != 0 {
        lemma_from_fields_singleton::<StatusResponse>(
            m2,
            SpecField::Varint(3, m.service_port as u64),
        );
    }
    assert(from_fields_rec::<StatusResponse>(m2, c) == Some(m3));
    if m.session_id != 0 {
        lemma_from_fields_singleton::<StatusResponse>(m3, SpecField::Varint(4, m.session_id));
    }
    assert(from_fields_rec::<StatusResponse>(m3, d) == Some(m));
    assert(StatusResponse::field_list(m) == ((a + b) + c) + d);
    lemma_msg_round_trip::<StatusResponse>(m);
}

/// Re-announces already-bound ports after a lost-contact condition, so a
/// previously registered service can resume without renegotiating.
#[derive(Clone, Copy, Debug, PartialEq, Eq, Structural)]
pub struct ReRegisterRequest {
    pub heartbeat_port: u32,
    pub service_port: u32,
    pub service_id: u64,
}

impl View for ReRegisterRequest {
    type V = ReRegisterRequest;

    open spec fn view(&self) -> ReRegisterRequest {
        *self
    }
}

impl WireMessage for ReRegisterRequest {
    open spec fn initial() -> Self {
        ReRegisterRequest { heartbeat_port: 0, service_port: 0, service_id: 0 }
    }

    open spec fn apply_field(prev: Self, f: SpecField) -> Option<Self> {
        match f {
            SpecField::Varint(num, v) => if num == 1 {
                Some(ReRegisterRequest { heartbeat_port: v as u32, ..prev })
            } else if num == 2 {
                Some(ReRegisterRequest { service_port: v as u32, ..prev })
            } else if num == 3 {
                Some(ReRegisterRequest { service_id: v, ..prev })
            } else {
                None
            },
            SpecField::Bytes(_, _) => None,
        }
    }

    open spec fn field_list(m: Self) -> Seq<SpecField> {
        (if m.heartbeat_port == 0 {
            Seq::<SpecField>::empty()
        } else {
            seq![SpecField::Varint(1, m.heartbeat_port as u64)]
        }) + (if m.service_port == 0 {
            Seq::<SpecField>::empty()
        } else {
            seq![SpecField::Varint(2, m.service_port as u64)]
        }) + (if m.service_id == 0 {
            Seq::<SpecField>::empty()
        } else {
            seq![SpecField::Varint(3, m.service_id)]
        })
    }

    open spec fn enc_wf(m: Self) -> bool {
        true
    }

    fn initial_msg() -> (r: Self) {
        ReRegisterRequest { heartbeat_port: 0, service_port: 0, service_id: 0 }
    }

    fn apply(self, f: &WireField) -> (r: Option<Self>) {
        match f {
            WireField::Varint(num, v) => if *num == 1 {
                Some(ReRegisterRequest { heartbeat_port: *v as u32, ..self })
            } else if *num == 2 {
                Some(ReRegisterRequest { service_port: *v as u32, ..self })
            } else if *num == 3 {
                Some(ReRegisterRequest { service_id: *v, ..self })
            } else {
                None
            },
            WireField::Bytes(_, _) => None,
        }
    }

    fn fields_vec(&self) -> (r: Vec<WireField>) {
        let mut v: Vec<WireField> = Vec::new();
        if self.heartbeat_port != 0 {
            v.push(WireField::Varint(1, self.heartbeat_port as u64));
        }
        if self.service_port != 0 {
            v.push(WireField::Varint(2, self.service_port as u64));
        }
        if self.service_id != 0 {
            v.push(WireField::Varint(3, self.service_id));
        }
        proof {
            assert(field_views(v@) =~= Self::field_list(self@));
        }
        v
    }
}

impl Default for ReRegisterRequest {
    /// The message with every field at its default.
    fn default() -> (r: Self)
        ensures
            r == ReRegisterRequest::initial(),
    {
        ReRegisterRequest { heartbeat_port: 0, service_port: 0, service_id: 0 }
    }
}

impl ReRegisterRequest {
    /// A request with every field at its default.
    pub fn new() -> (r: ReRegisterRequest)
        ensures
            r == ReRegisterRequest::initial(),
    {
        ReRegisterRequest { heartbeat_port: 0, service_port: 0, service_id: 0 }
    }

    /// Resets the heartbeat port to its default.
    pub fn clear_heartbeat_port(&mut self)
        ensures
            *final(self) == (ReRegisterRequest { heartbeat_port: 0, ..*old(self) }),
    {
        self.heartbeat_port = 0;
    }

    /// Sets the heartbeat port.
    pub fn set_heartbeat_port(&mut self, v: u32)
        ensures
            *final(self) == (ReRegisterRequest { heartbeat_port: v, ..*old(self) }),
    {
        self.heartbeat_port = v;
    }

    /// Reads the heartbeat port.
    pub fn get_heartbeat_port(&self) -> (r: u32)
        ensures
            r == self.heartbeat_port,
    {
        self.heartbeat_port
    }

    /// Resets the service port to its default.
    pub fn clear_service_port(&mut self)
        ensures
            *final(self) == (ReRegisterRequest { service_port: 0, ..*old(self) }),
    {
        self.service_port = 0;
    }

    /// Sets the service port.
    pub fn set_service_port(&mut self, v: u32)
        ensures
            *final(self) == (ReRegisterRequest { service_port: v, ..*old(self) }),
    {
        self.service_port = v;
    }

    /// Reads the service port.
    pub fn get_service_port(&self) -> (r: u32)
        ensures
            r == self.service_port,
    {
        self.service_port
    }

    /// Resets the service id to its default.
    pub fn clear_service_id(&mut self)
        ensures
            *final(self) == (ReRegisterRequest { service_id: 0, ..*old(self) }),
    {
        self.service_id = 0;
    }

    /// Sets the service id.
    pub fn set_service_id(&mut self, v: u64)
        ensures
            *final(self) == (ReRegisterRequest { service_id: v, ..*old(self) }),
    {
        self.service_id = v;
    }

    /// Reads the service id.
    pub fn get_service_id(&self) -> (r: u64)
        ensures
            r == self.service_id,
    {
        self.service_id
    }

    /// Serializes this message for the wire.
    pub fn write_to_bytes(&self) -> (r: Vec<u8>)
        ensures
            r@ == msg_enc::<ReRegisterRequest>(*self),
    {
        encode_message(self)
    }

    /// Parses one message from its wire bytes.
    pub fn parse_from_bytes(bytes: &[u8]) -> (r: Option<ReRegisterRequest>)
        ensures
            r == msg_dec::<ReRegisterRequest>(bytes@),
    {
        parse_message(bytes)
    }
}

/// Decoding undoes encoding for `ReRegisterRequest`.
pub proof fn lemma_re_register_request_round_trip(m: ReRegisterRequest)
    ensures
        msg_dec::<ReRegisterRequest>(msg_enc::<ReRegisterRequest>(m)) == Some(m),
{
    let a = if m.heartbeat_port == 0 {
        Seq::<SpecField>::empty()
    } else {
        seq![SpecField::Varint(1, m.heartbeat_port as u64)]
    };
    let b = if m.service_port == 0 {
        Seq::<SpecField>::empty()
    } else {
        seq![SpecField::Varint(2, m.service_port as u64)]
    };
    let c = if m.service_id == 0 {
        Seq::<SpecField>::empty()
    } else {
        seq![SpecField::Varint(3, m.service_id)]
    };
    let m0 = ReRegisterRequest::initial();
    let m1 = ReRegisterRequest { heartbeat_port: m.heartbeat_port, ..m0 };
    let m2 = ReRegisterRequest { service_port: m.service_port, ..m1 };
    assert((a + b) + c =~= a + (b + c));
    lemma_from_fields_concat::<ReRegisterRequest>(m0, a, b + c);
    if m.heartbeat_port != 0 {
        lemma_from_fields_singleton::<ReRegisterRequest>(
            m0,
            SpecField::Varint(1, m.heartbeat_port as u64),
        );
    }
    assert(from_fields_rec::<ReRegisterRequest>(m0, a) == Some(m1));
    lemma_from_fields_concat::<ReRegisterRequest>(m1, b, c);
    if m.service_port != 0 {
        lemma_from_fields_singleton::<ReRegisterRequest>(
            m1,
            SpecField::Varint(2, m.service_port as u64),
        );
    }
    assert(from_fields_rec::<ReRegisterRequest>(m1, b) == Some(m2));
    if m.service_id != 0 {
        lemma_from_fields_singleton::<ReRegisterRequest>(m2, SpecField::Varint(3, m.service_id));
    }
    assert(from_fields_rec::<ReRegisterRequest>(m2, c) == Some(m));
    assert(ReRegisterRequest::field_list(m) == a + b + c);
    lemma_msg_round_trip::<ReRegisterRequest>(m);
}

/// The registry's answer to `ReRegisterRequest`: whether the resume was
/// accepted, with a short descriptive text.
#[derive(Clone, Debug)]
pub struct ReRegisterResponse {
    pub succeed: bool,
    pub msg: String,
}

/// The mathematical model of `ReRegisterResponse`.
pub struct ReRegisterResponseView {
    pub succeed: bool,
    pub msg: Seq<char>,
}

impl View for ReRegisterResponse {
    type V = ReRegisterResponseView;

    open spec fn view(&self) -> ReRegisterResponseView {
        ReRegisterResponseView { succeed: self.succeed, msg: self.msg@ }
    }
}

impl PartialEq for ReRegisterResponse {
    fn eq(&self, other: &ReRegisterResponse) -> (r: bool) {
        self.succeed == other.succeed && self.msg == other.msg
    }
}

impl vstd::std_specs::cmp::PartialEqSpecImpl for ReRegisterResponse {
    open spec fn obeys_eq_spec() -> bool {
        true
    }

    open spec fn eq_spec(&self, other: &ReRegisterResponse) -> bool {
        self.succeed == other.succeed && self.msg@ == other.msg@
    }
}

/// The descriptive text this codec can carry: ASCII, and short enough for
/// one field.
pub open spec fn msg_encodable(s: Seq<char>) -> bool {
    vstd::utf8::is_ascii_chars(s) && s.len() <= u32::MAX
}

impl WireMessage for ReRegisterResponse {
    open spec fn initial() -> ReRegisterResponseView {
        ReRegisterResponseView { succeed: false, msg: Seq::empty() }
    }

    open spec fn apply_field(prev: ReRegisterResponseView, f: SpecField) -> Option<
        ReRegisterResponseView,
    > {
        match f {
            SpecField::Varint(num, v) => if num == 1 {
                Some(ReRegisterResponseView { succeed: v != 0, ..prev })
            } else {
                None
            },
            SpecField::Bytes(num, b) => if num == 2 {
                if is_ascii_bytes(b) {
                    Some(ReRegisterResponseView { msg: ascii_chars(b), ..prev })
                } else {
                    None
                }
            } else {
                None
            },
        }
    }

    open spec fn field_list(m: ReRegisterResponseView) -> Seq<SpecField> {
        (if !m.succeed {
            Seq::<SpecField>::empty()
        } else {
            seq![SpecField::Varint(1, 1)]
        }) + (if m.msg.len() == 0 {
            Seq::<SpecField>::empty()
        } else {
            seq![SpecField::Bytes(2, ascii_bytes_of(m.msg))]
        })
    }

    open spec fn enc_wf(m: ReRegisterResponseView) -> bool {
        msg_encodable(m.msg)
    }

    fn initial_msg() -> (r: Self) {
        ReRegisterResponse { succeed: false, msg: String::new() }
    }

    fn apply(self, f: &WireField) -> (r: Option<Self>) {
        match f {
            WireField::Varint(num, v) => if *num == 1 {
                Some(ReRegisterResponse { succeed: *v != 0, msg: self.msg })
            } else {
                None
            },
            WireField::Bytes(num, b) => if *num == 2 {
                if crate::wire::bytes_all_ascii(b.as_slice()) {
                    match ascii_bytes_to_string(b.as_slice()) {
                        Some(s) => Some(ReRegisterResponse { succeed: self.succeed, msg: s }),
                        None => None,
                    }
                } else {
                    None
                }
            } else {
                None
            },
        }
    }

    fn fields_vec(&self) -> (r: Vec<WireField>) {
        broadcast use vstd::string::is_ascii_spec_bytes;

        let mut v: Vec<WireField> = Vec::new();
        if self.succeed {
            v.push(WireField::Varint(1, 1));
        }
        let s = self.msg.as_str();
        assert(s.is_ascii());
        let bs = s.as_bytes();
        assert(bs@ =~= ascii_bytes_of(self.msg@));
        if bs.len() != 0 {
            v.push(WireField::Bytes(2, vstd::slice::slice_to_vec(bs)));
        }
        proof {
            assert(field_views(v@) =~= Self::field_list(self@));
        }
        v
    }
}

impl Default for ReRegisterResponse {
    /// The message with every field at its default.
    fn default() -> (r: Self)
        ensures
            r@ == ReRegisterResponse::initial(),
    {
        ReRegisterResponse { succeed: false, msg: String::new() }
    }
}

impl ReRegisterResponse {
    /// A response with every field at its default.
    pub fn new() -> (r: ReRegisterResponse)
        ensures
            r@ == ReRegisterResponse::initial(),
    {
        ReRegisterResponse { succeed: false, msg: String::new() }
    }

    /// Resets the success flag to its default.
    pub fn clear_succeed(&mut self)
        ensures
            final(self).succeed == false,
            final(self).msg@ == old(self).msg@,
    {
        self.succeed = false;
    }

    /// Sets the success flag.
    pub fn set_succeed(&mut self, v: bool)
        ensures
            final(self).succeed == v,
            final(self).msg@ == old(self).msg@,
    {
        self.succeed = v;
    }

    /// Reads the success flag.
    pub fn get_succeed(&self) -> (r: bool)
        ensures
            r == self.succeed,
    {
        self.succeed
    }

    /// Resets the text to its default.
    pub fn clear_msg(&mut self)
        ensures
            final(self).succeed == old(self).succeed,
            final(self).msg@ == Seq::<char>::empty(),
    {
        self.msg = String::new();
    }

    /// Sets the text.
    pub fn set_msg(&mut self, v: String)
        ensures
            final(self).succeed == old(self).succeed,
            final(self).msg@ == v@,
    {
        self.msg = v;
    }

    /// Reads the text.
    pub fn get_msg(&self) -> (r: &str)
        ensures
            r@ == self.msg@,
    {
        self.msg.as_str()
    }

    /// Takes the text out, leaving the default in its place.
    pub fn take_msg(&mut self) -> (r: String)
        ensures
            r@ == old(self).msg@,
            final(self).succeed == old(self).succeed,
            final(self).msg@ == Seq::<char>::empty(),
    {
        let r = self.msg.clone();
        self.msg = String::new();
        r
    }

    /// Serializes this message for the wire.
    pub fn write_to_bytes(&self) -> (r: Vec<u8>)
        requires
            msg_encodable(self.msg@),
        ensures
            r@ == msg_enc::<ReRegisterResponse>(self@),
    {
        encode_message(self)
    }

    /// Parses one message from its wire bytes.
    pub fn parse_from_bytes(bytes: &[u8]) -> (r: Option<ReRegisterResponse>)
        ensures
            match r {
                None => msg_dec::<ReRegisterResponse>(bytes@) is None,
                Some(m) => msg_dec::<ReRegisterResponse>(bytes@) == Some(m@),
            },
    {
        parse_message(bytes)
    }
}

/// Decoding undoes encoding for `ReRegisterResponse`, for every text that
/// fits the wire.
pub proof fn lemma_re_register_response_round_trip(m: ReRegisterResponseView)
    requires
        msg_encodable(m.msg),
    ensures
        msg_dec::<ReRegisterResponse>(msg_enc::<ReRegisterResponse>(m)) == Some(m),
{
    let a = if !m.succeed {
        Seq::<SpecField>::empty()
    } else {
        seq![SpecField::Varint(1, 1)]
    };
    let b = if m.msg.len() == 0 {
        Seq::<SpecField>::empty()
    } else {
        seq![SpecField::Bytes(2, ascii_bytes_of(m.msg))]
    };
    let m0 = ReRegisterResponse::initial();
    let m1 = ReRegisterResponseView { succeed: m.succeed, ..m0 };
    lemma_from_fields_concat::<ReRegisterResponse>(m0, a, b);
    if m.succeed {
        lemma_from_fields_singleton::<ReRegisterResponse>(m0, SpecField::Varint(1, 1));
    }
    assert(from_fields_rec::<ReRegisterResponse>(m0, a) == Some(m1));
    assert(is_ascii_bytes(ascii_bytes_of(m.msg)));
    assert(ascii_chars(ascii_bytes_of(m.msg)) =~= m.msg);
    if m.msg.len() != 0 {
        lemma_from_fields_singleton::<ReRegisterResponse>(
            m1,
            SpecField::Bytes(2, ascii_bytes_of(m.msg)),
        );
    } else {
        assert(m1.msg =~= m.msg);
    }
    assert(from_fields_rec::<ReRegisterResponse>(m1, b) == Some(m));
    assert(fields_wf(ReRegisterResponse::field_list(m)));
    lemma_msg_round_trip::<ReRegisterResponse>(m);
}

} // verus!


