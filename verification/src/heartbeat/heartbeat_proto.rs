//! The two messages of the heartbeat wire protocol: one probe request and
//! one probe response, each carrying a single numeric payload.

use vstd::prelude::*;

use crate::wire::{
    SpecField, WireField, WireMessage, field_views, from_fields_rec, msg_dec, msg_enc,
    encode_message, parse_message, lemma_from_fields_singleton, lemma_msg_round_trip, fields_enc,
    field_enc, lemma_varint_enc_len, lemma_u64_fits_ten_bytes, pow128, MAX_VARINT_BYTES,
};

verus! {

/// One probe: the payload the prober chooses.
#[derive(Clone, Copy, Debug, PartialEq, Eq, Structural)]
pub struct HeartbeatRequest {
    pub msg: u32,
}

impl View for HeartbeatRequest {
    type V = HeartbeatRequest;

    open spec fn view(&self) -> HeartbeatRequest {
        *self
    }
}

impl WireMessage for HeartbeatRequest {
    open spec fn initial() -> Self {
        HeartbeatRequest { msg: 0 }
    }

    open spec fn apply_field(prev: Self, f: SpecField) -> Option<Self> {
        match f {
            SpecField::Varint(num, v) => if num == 1 {
                Some(HeartbeatRequest { msg: v as u32 })
            } else {
                None
            },
            SpecField::Bytes(_, _) => None,
        }
    }

    open spec fn field_list(m: Self) -> Seq<SpecField> {
        if m.msg == 0 {
            Seq::empty()
        } else {
            seq![SpecField::Varint(1, m.msg as u64)]
        }
    }

    open spec fn enc_wf(m: Self) -> bool {
        true
    }

    fn initial_msg() -> (r: Self) {
        HeartbeatRequest { msg: 0 }
    }

    fn apply(self, f: &WireField) -> (r: Option<Self>) {
        match f {
            WireField::Varint(num, v) => if *num == 1 {
                Some(HeartbeatRequest { msg: *v as u32 })
            } else {
                None
            },
            WireField::Bytes(_, _) => None,
        }
    }

    fn fields_vec(&self) -> (r: Vec<WireField>) {
        let mut v: Vec<WireField> = Vec::new();
        if self.msg != 0 {
            v.push(WireField::Varint(1, self.msg as u64));
        }
        proof {
            assert(field_views(v@) =~= Self::field_list(self@));
        }
        v
    }
}

impl Default for HeartbeatRequest {
    /// The message with every field at its default.
    fn default() -> (r: Self)
        ensures
            r == HeartbeatRequest::initial(),
    {
        HeartbeatRequest { msg: 0 }
    }
}

impl HeartbeatRequest {
    /// A request with every field at its default.
    pub fn new() -> (r: HeartbeatRequest)
        ensures
            r == HeartbeatRequest::initial(),
    {
        HeartbeatRequest { msg: 0 }
    }

    /// Resets the payload to its default.
    pub fn clear_msg(&mut self)
        ensures
            final(self).msg == 0,
    {
        self.msg = 0;
    }

    /// Sets the payload.
    pub fn set_msg(&mut self, v: u32)
        ensures
            final(self).msg == v,
    {
        self.msg = v;
    }

    /// Reads the payload.
    pub fn get_msg(&self) -> (r: u32)
        ensures
            r == self.msg,
    {
        self.msg
    }

    /// Serializes this message for the wire.
    pub fn write_to_bytes(&self) -> (r: Vec<u8>)
        ensures
            r@ == msg_enc::<HeartbeatRequest>(*self),
    {
        encode_message(self)
    }

    /// Parses one message from its wire bytes.
    pub fn parse_from_bytes(bytes: &[u8]) -> (r: Option<HeartbeatRequest>)
        ensures
            r == msg_dec::<HeartbeatRequest>(bytes@),
    {
        parse_message(bytes)
    }
}

/// Decoding undoes encoding for `HeartbeatRequest`.
pub proof fn lemma_heartbeat_request_round_trip(m: HeartbeatRequest)
    ensures
        msg_dec::<HeartbeatRequest>(msg_enc::<HeartbeatRequest>(m)) == Some(m),
{
    if m.msg != 0 {
        lemma_from_fields_singleton::<HeartbeatRequest>(
            HeartbeatRequest::initial(),
            SpecField::Varint(1, m.msg as u64),
        );
    }
    lemma_msg_round_trip::<HeartbeatRequest>(m);
}

/// The encoding of a probe request is at most eleven bytes: one tag byte
/// and at most ten bytes of value.
pub proof fn lemma_heartbeat_request_enc_len(m: HeartbeatRequest)
    ensures
        msg_enc::<HeartbeatRequest>(m).len() <= 11,
{
    let fl = HeartbeatRequest::field_list(m);
    if m.msg == 0 {
        assert(fields_enc(fl) =~= Seq::<u8>::empty());
    } else {
        let f = SpecField::Varint(1, m.msg as u64);
        assert(fl.drop_first() =~= Seq::<SpecField>::empty());
        assert(fields_enc(fl) == field_enc(f) + fields_enc(fl.drop_first()));
        reveal_with_fuel(pow128, 3);
        lemma_varint_enc_len(8, 1);
        lemma_u64_fits_ten_bytes();
        lemma_varint_enc_len(m.msg as nat, MAX_VARINT_BYTES as nat);
    }
}

/// One probe answer: the payload the server chooses.
#[derive(Clone, Copy, Debug, PartialEq, Eq, Structural)]
pub struct HeartbeatResponse {
    pub msg: u32,
}

impl View for HeartbeatResponse {
    type V = HeartbeatResponse;

    open spec fn view(&self) -> HeartbeatResponse {
        *self
    }
}

impl WireMessage for HeartbeatResponse {
    open spec fn initial() -> Self {
        HeartbeatResponse { msg: 0 }
    }

    open spec fn apply_field(prev: Self, f: SpecField) -> Option<Self> {
        match f {
            SpecField::Varint(num, v) => if num == 1 {
                Some(HeartbeatResponse { msg: v as u32 })
            } else {
                None
            },
            SpecField::Bytes(_, _) => None,
        }
    }

    open spec fn field_list(m: Self) -> Seq<SpecField> {
        if m.msg == 0 {
            Seq::empty()
        } else {
            seq![SpecField::Varint(1, m.msg as u64)]
        }
    }

    open spec fn enc_wf(m: Self) -> bool {
        true
    }

    fn initial_msg() -> (r: Self) {
        HeartbeatResponse { msg: 0 }
    }

    fn apply(self, f: &WireField) -> (r: Option<Self>) {
        match f {
            WireField::Varint(num, v) => if *num == 1 {
                Some(HeartbeatResponse { msg: *v as u32 })
            } else {
                None
            },
            WireField::Bytes(_, _) => None,
        }
    }

    fn fields_vec(&self) -> (r: Vec<WireField>) {
        let mut v: Vec<WireField> = Vec::new();
        if self.msg != 0 {
            v.push(WireField::Varint(1, self.msg as u64));
        }
        proof {
            assert(field_views(v@) =~= Self::field_list(self@));
        }
        v
    }
}

impl Default for HeartbeatResponse {
    /// The message with every field at its default.
    fn default() -> (r: Self)
        ensures
            r == HeartbeatResponse::initial(),
    {
        HeartbeatResponse { msg: 0 }
    }
}

impl HeartbeatResponse {
    /// A response with every field at its default.
    pub fn new() -> (r: HeartbeatResponse)
        ensures
            r == HeartbeatResponse::initial(),
    {
        HeartbeatResponse { msg: 0 }
    }

    /// Resets the payload to its default.
    pub fn clear_msg(&mut self)
        ensures
            final(self).msg == 0,
    {
        self.msg = 0;
    }

    /// Sets the payload.
    pub fn set_msg(&mut self, v: u32)
        ensures
            final(self).msg == v,
    {
        self.msg = v;
    }

    /// Reads the payload.
    pub fn get_msg(&self) -> (r: u32)
        ensures
            r == self.msg,
    {
        self.msg
    }

    /// Serializes this message for the wire.
    pub fn write_to_bytes(&self) -> (r: Vec<u8>)
        ensures
            r@ == msg_enc::<HeartbeatResponse>(*self),
    {
        encode_message(self)
    }

    /// Parses one message from its wire bytes.
    pub fn parse_from_bytes(bytes: &[u8]) -> (r: Option<HeartbeatResponse>)
        ensures
            r == msg_dec::<HeartbeatResponse>(bytes@),
    {
        parse_message(bytes)
    }
}

/// The encoding of a probe response is at most eleven bytes: one tag byte
/// and at most ten bytes of value.
pub proof fn lemma_heartbeat_response_enc_len(m: HeartbeatResponse)
    ensures
        msg_enc::<HeartbeatResponse>(m).len() <= 11,
{
    let fl = HeartbeatResponse::field_list(m);
    if m.msg == 0 {
        assert(fields_enc(fl) =~= Seq::<u8>::empty());
    } else {
        let f = SpecField::Varint(1, m.msg as u64);
        assert(fl.drop_first() =~= Seq::<SpecField>::empty());
        assert(fields_enc(fl) == field_enc(f) + fields_enc(fl.drop_first()));
        reveal_with_fuel(pow128, 3);
        lemma_varint_enc_len(8, 1);
        lemma_u64_fits_ten_bytes();
        lemma_varint_enc_len(m.msg as nat, MAX_VARINT_BYTES as nat);
    }
}

/// Decoding undoes encoding for `HeartbeatResponse`.
pub proof fn lemma_heartbeat_response_round_trip(m: HeartbeatResponse)
    ensures
        msg_dec::<HeartbeatResponse>(msg_enc::<HeartbeatResponse>(m)) == Some(m),
{
    if m.msg != 0 {
        lemma_from_fields_singleton::<HeartbeatResponse>(
            HeartbeatResponse::initial(),
            SpecField::Varint(1, m.msg as u64),
        );
    }
    lemma_msg_round_trip::<HeartbeatResponse>(m);
}

} // verus!
