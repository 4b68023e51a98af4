//! The server side of the heartbeat protocol: decode one framed request,
//! ask the handler for the response, and frame it for the wire. The
//! listener thread and the sockets live in an I/O shell; this module holds
//! the per-frame logic and the start/stop bookkeeping.

use vstd::prelude::*;

use super::heartbeat_proto::{HeartbeatRequest, HeartbeatResponse};
use crate::wire::{msg_enc, msg_dec, frame_enc, frame_dec, encode_frame, lemma_frame_round_trip};
use super::heartbeat_proto::{
    lemma_heartbeat_request_enc_len, lemma_heartbeat_response_enc_len,
    lemma_heartbeat_request_round_trip, lemma_heartbeat_response_round_trip,
};

verus! {

/// How a user supplies the response for each decoded probe request.
pub trait Handler {
    /// What the handler answers for each request.
    spec fn spec_handle(&self, req: HeartbeatRequest) -> HeartbeatResponse;

    /// Computes the answer for one request.
    fn handle(&self, req: HeartbeatRequest) -> (r: HeartbeatResponse)
        ensures
            r == self.spec_handle(req),
    ;
}

/// What the server makes of one frame payload: nothing for a payload that
/// does not decode — the connection is then closed silently — and the
/// framed, encoded handler response otherwise.
pub open spec fn spec_process<H: Handler>(h: &H, payload: Seq<u8>) -> Option<Seq<u8>> {
    match msg_dec::<HeartbeatRequest>(payload) {
        None => None,
        Some(req) => Some(frame_enc(msg_enc::<HeartbeatResponse>(h.spec_handle(req)))),
    }
}

/// Handles one deframed request payload: the decoded request goes to the
/// handler, and the reply comes back already framed; a payload that does
/// not decode yields nothing, and the shell closes the connection.
pub fn process_request<H: Handler>(h: &H, payload: &[u8]) -> (r: Option<Vec<u8>>)
    ensures
        match r {
            None => spec_process(h, payload@) is None,
            Some(v) => spec_process(h, payload@) == Some(v@),
        },
{
    match HeartbeatRequest::parse_from_bytes(payload) {
        None => None,
        Some(req) => {
            let rsp = h.handle(req);
            let bytes = rsp.write_to_bytes();
            proof {
                lemma_heartbeat_response_enc_len(rsp);
            }
            Some(encode_frame(bytes.as_slice()))
        },
    }
}

/// A request frame echoes back exactly: for any probe request, the server
/// built on `h` answers its encoded frame with one reply frame whose
/// payload decodes, byte for byte, to precisely the handler's response.
pub proof fn lemma_server_round_trip<H: Handler>(h: &H, req: HeartbeatRequest, rest: Seq<u8>)
    ensures
        frame_dec(frame_enc(msg_enc::<HeartbeatRequest>(req)) + rest) == Some(
            (msg_enc::<HeartbeatRequest>(req), rest),
        ),
        spec_process(h, msg_enc::<HeartbeatRequest>(req)) == Some(
            frame_enc(msg_enc::<HeartbeatResponse>(h.spec_handle(req))),
        ),
        frame_dec(frame_enc(msg_enc::<HeartbeatResponse>(h.spec_handle(req)))) == Some(
            (msg_enc::<HeartbeatResponse>(h.spec_handle(req)), Seq::<u8>::empty()),
        ),
        msg_dec::<HeartbeatResponse>(msg_enc::<HeartbeatResponse>(h.spec_handle(req))) == Some(
            h.spec_handle(req),
        ),
{
    lemma_heartbeat_request_round_trip(req);
    let req_enc = msg_enc::<HeartbeatRequest>(req);
    let rsp = h.spec_handle(req);
    let rsp_enc = msg_enc::<HeartbeatResponse>(rsp);
    lemma_heartbeat_request_enc_len(req);
    lemma_frame_round_trip(req_enc, rest);
    lemma_heartbeat_response_enc_len(rsp);
    lemma_frame_round_trip(rsp_enc, Seq::empty());
    assert(frame_enc(rsp_enc) + Seq::<u8>::empty() =~= frame_enc(rsp_enc));
    lemma_heartbeat_response_round_trip(rsp);
}

/// A handler that answers every request with one fixed response.
pub struct FixedResponder {
    pub rsp: HeartbeatResponse,
}

impl Handler for FixedResponder {
    open spec fn spec_handle(&self, req: HeartbeatRequest) -> HeartbeatResponse {
        self.rsp
    }

    fn handle(&self, req: HeartbeatRequest) -> (r: HeartbeatResponse) {
        self.rsp
    }
}

/// What can go wrong when starting the server.
#[derive(Clone, Copy, Debug, PartialEq, Eq, Structural)]
pub enum ServerError {
    /// The server was already started once; it will not spawn twice.
    AlreadyStarted,
    /// The listener could not bind its port.
    BindFailed,
}

/// The heartbeat server's bookkeeping: its name, its handler, and whether
/// a listener is already running.
pub struct Server<H> {
    pub name: String,
    pub handler: H,
    pub started: bool,
}

impl<H: Handler> Server<H> {
    /// A server that will answer each request through `handler`; nothing
    /// listens until `begin_start` and `confirm_start` say so.
    pub fn new(name: String, handler: H) -> (r: Server<H>)
        ensures
            r.name@ == name@,
            r.handler == handler,
            !r.started,
    {
        Server { name, handler, started: false }
    }

    /// The decision half of starting: a server that already has a
    /// listener refuses a second one, so starting is idempotent-safe;
    /// otherwise the shell may go bind the port.
    pub fn begin_start(&mut self) -> (r: Result<(), ServerError>)
        ensures
            *final(self) == *old(self),
            match r {
                Ok(()) => !old(self).started,
                Err(e) => e is AlreadyStarted && old(self).started,
            },
    {
        if self.started {
            Err(ServerError::AlreadyStarted)
        } else {
            Ok(())
        }
    }

    /// The bookkeeping half of starting: records a confirmed bind, or
    /// reports the failure and leaves the server stopped, so `start` can
    /// be retried on another port.
    pub fn confirm_start(&mut self, bind_ok: bool) -> (r: Result<(), ServerError>)
        requires
            !old(self).started,
        ensures
            final(self).name == old(self).name,
            final(self).handler == old(self).handler,
            final(self).started == bind_ok,
            match r {
                Ok(()) => bind_ok,
                Err(e) => e is BindFailed && !bind_ok,
            },
    {
        if bind_ok {
            self.started = true;
            Ok(())
        } else {
            Err(ServerError::BindFailed)
        }
    }
}

} // verus!
