//! The registering side: the negotiation a service runs against the
//! registry — try the candidate ports, report what worked, take the next
//! candidates — and the watchdog that re-announces the service when the
//! registry falls silent. The RPC calls, the poll loop and the sleeps
//! live in an I/O shell; every decision is made here.

use vstd::prelude::*;

use crate::{ServiceId, SockAddr};
use crate::registry_proto::{
    RegisterRequest, RegisterResponse, StatusRequest, StatusResponse, ReRegisterRequest,
};

verus! {

/// What the negotiation has locked in so far.
#[derive(Clone, Copy, Debug, PartialEq, Eq, Structural)]
pub struct Meta {
    pub service_port: Option<u16>,
    pub heartbeat_port: Option<u16>,
}

impl Meta {
    /// Nothing locked in yet.
    pub fn new() -> (r: Meta)
        ensures
            r.service_port is None,
            r.heartbeat_port is None,
    {
        Meta { service_port: None, heartbeat_port: None }
    }

    /// Forgets both ports, as after a lost session.
    pub fn clean(&mut self)
        ensures
            final(self).service_port is None,
            final(self).heartbeat_port is None,
    {
        self.service_port = None;
        self.heartbeat_port = None;
    }

    /// Locks in the port the service runs on.
    pub fn set_service_port(&mut self, port: u16)
        ensures
            final(self).service_port == Some(port),
            final(self).heartbeat_port == old(self).heartbeat_port,
    {
        self.service_port = Some(port);
    }

    /// Locks in the port the heartbeat responder runs on.
    pub fn set_heartbeat_port(&mut self, port: u16)
        ensures
            final(self).heartbeat_port == Some(port),
            final(self).service_port == old(self).service_port,
    {
        self.heartbeat_port = Some(port);
    }

    /// Whether both ports are locked in, ending the negotiation.
    pub fn has_both_port(&self) -> (r: bool)
        ensures
            r == (self.service_port is Some && self.heartbeat_port is Some),
    {
        self.service_port.is_some() && self.heartbeat_port.is_some()
    }

    /// Whether the service port is locked in.
    pub fn has_service_port(&self) -> (r: bool)
        ensures
            r == (self.service_port is Some),
    {
        self.service_port.is_some()
    }

    /// Whether the heartbeat port is locked in.
    pub fn has_heartbeat_port(&self) -> (r: bool)
        ensures
            r == (self.heartbeat_port is Some),
    {
        self.heartbeat_port.is_some()
    }
}

/// What a registration RPC can come back with, as the container sees it.
#[derive(Clone, Debug)]
pub enum RpcError {
    /// The transport failed; the description is the shell's.
    RpcErr(String),
    /// The registry answered, but no longer knows the session: it
    /// restarted while the negotiation was under way.
    ServerCrashed,
}

/// How the container is configured: the registry's address, and the
/// heartbeat interval that also bounds how long silence is tolerated, in
/// milliseconds.
#[derive(Clone, Copy, Debug, PartialEq, Eq, Structural)]
pub struct Config {
    pub heartbeat_interval: u64,
    pub server_addr: SockAddr,
}

impl Config {
    /// Pairs an interval with the registry's address.
    pub fn new(heartbeat_interval: u64, server_addr: SockAddr) -> (r: Config)
        ensures
            r == (Config { heartbeat_interval, server_addr }),
    {
        Config { heartbeat_interval, server_addr }
    }
}

/// What the container runs: user service logic that can be started on a
/// port the registry hands out, and stopped when the negotiation resets.
pub trait Executor {
    /// The identifier this service registers under.
    fn service_id(&self) -> ServiceId;

    /// Tries to bind and start the user logic on `port`, reporting
    /// whether that worked.
    fn run(&mut self, port: u16) -> bool;

    /// Best-effort graceful shutdown.
    fn stop(&mut self);
}

/// One port negotiation in progress: what is locked in, which session it
/// belongs to, and the candidate ports to try next.
#[derive(Clone, Copy, Debug, PartialEq, Eq, Structural)]
pub struct Negotiation {
    pub meta: Meta,
    pub session_id: u64,
    pub service_port: u16,
    pub heartbeat_port: u16,
}

impl Negotiation {
    /// Starts negotiating from the registry's answer to `Register`.
    pub fn begin(rsp: &RegisterResponse) -> (r: Negotiation)
        ensures
            r.meta.service_port is None,
            r.meta.heartbeat_port is None,
            r.session_id == rsp.session_id,
            r.service_port == rsp.service_port as u16,
            r.heartbeat_port == rsp.heartbeat_port as u16,
    {
        Negotiation {
            meta: Meta::new(),
            session_id: rsp.session_id,
            service_port: rsp.service_port as u16,
            heartbeat_port: rsp.heartbeat_port as u16,
        }
    }

    /// Whether the service should be started this round: only while its
    /// port is not locked in yet.
    pub fn should_run_service(&self) -> (r: bool)
        ensures
            r == (self.meta.service_port is None),
    {
        self.meta.service_port.is_none()
    }

    /// Whether the heartbeat responder should be started this round.
    pub fn should_run_heartbeat(&self) -> (r: bool)
        ensures
            r == (self.meta.heartbeat_port is None),
    {
        self.meta.heartbeat_port.is_none()
    }

    /// Records one round of attempts: a dimension that succeeded locks
    /// in its current candidate; a dimension already locked in stays put.
    /// The returned request reports exactly what is locked in now.
    pub fn record_attempt(&mut self, service_ok: bool, heartbeat_ok: bool) -> (r: StatusRequest)
        ensures
            final(self).session_id == old(self).session_id,
            final(self).service_port == old(self).service_port,
            final(self).heartbeat_port == old(self).heartbeat_port,
            final(self).meta.service_port == if old(self).meta.service_port is Some {
                old(self).meta.service_port
            } else if service_ok {
                Some(old(self).service_port)
            } else {
                None::<u16>
            },
            final(self).meta.heartbeat_port == if old(self).meta.heartbeat_port is Some {
                old(self).meta.heartbeat_port
            } else if heartbeat_ok {
                Some(old(self).heartbeat_port)
            } else {
                None::<u16>
            },
            r == (StatusRequest {
                heartbeat_succeed: final(self).meta.heartbeat_port is Some,
                service_succeed: final(self).meta.service_port is Some,
                session_id: old(self).session_id,
            }),
    {
        if self.meta.service_port.is_none() && service_ok {
            self.meta.set_service_port(self.service_port);
        }
        if self.meta.heartbeat_port.is_none() && heartbeat_ok {
            self.meta.set_heartbeat_port(self.heartbeat_port);
        }
        StatusRequest {
            heartbeat_succeed: self.meta.has_heartbeat_port(),
            service_succeed: self.meta.has_service_port(),
            session_id: self.session_id,
        }
    }

    /// Takes the registry's answer to `ReportStatus`: a response that no
    /// longer carries the session resets the negotiation — the registry
    /// crashed, and everything must start over — while a live response
    /// moves the candidate ports to the next ones to try.
    pub fn on_status_response(&mut self, rsp: &StatusResponse) -> (r: Result<(), RpcError>)
        ensures
            match r {
                Ok(()) => {
                    &&& rsp.succeed
                    &&& final(self).meta == old(self).meta
                    &&& final(self).session_id == old(self).session_id
                    &&& final(self).service_port == rsp.service_port as u16
                    &&& final(self).heartbeat_port == rsp.heartbeat_port as u16
                },
                Err(e) => {
                    &&& !rsp.succeed
                    &&& e is ServerCrashed
                    &&& final(self).meta.service_port is None
                    &&& final(self).meta.heartbeat_port is None
                    &&& final(self).session_id == old(self).session_id
                    &&& final(self).service_port == old(self).service_port
                    &&& final(self).heartbeat_port == old(self).heartbeat_port
                },
            },
    {
        if rsp.succeed {
            self.service_port = rsp.service_port as u16;
            self.heartbeat_port = rsp.heartbeat_port as u16;
            Ok(())
        } else {
            self.meta.clean();
            Err(RpcError::ServerCrashed)
        }
    }

    /// Whether the negotiation is over: both ports locked in.
    pub fn done(&self) -> (r: bool)
        ensures
            r == (self.meta.service_port is Some && self.meta.heartbeat_port is Some),
    {
        self.meta.has_both_port()
    }
}

/// The first request of a registration: just the service's id.
pub fn register_request(sid: ServiceId) -> (r: RegisterRequest)
    ensures
        r == (RegisterRequest { service_id: sid.0 }),
{
    RegisterRequest { service_id: sid.0 }
}

/// The request that re-announces already-bound ports after silence.
pub fn re_register_request(sid: ServiceId, service_port: u16, heartbeat_port: u16) -> (r:
    ReRegisterRequest)
    ensures
        r == (ReRegisterRequest {
            heartbeat_port: heartbeat_port as u32,
            service_port: service_port as u32,
            service_id: sid.0,
        }),
{
    ReRegisterRequest {
        heartbeat_port: heartbeat_port as u32,
        service_port: service_port as u32,
        service_id: sid.0,
    }
}

/// What the watchdog does after one poll of its readiness sources.
#[derive(Clone, Copy, Debug, PartialEq, Eq, Structural)]
pub struct WatchdogStep {
    /// The registry was silent for a whole interval: re-announce.
    pub re_register: bool,
    /// The owner asked the container to shut down: leave the loop.
    pub stop: bool,
    /// A heartbeat arrived: clear the readiness flag and keep waiting.
    pub clear_heartbeat: bool,
}

/// Decides one turn of the watchdog from what the poll reported: silence
/// for a whole interval triggers a re-announcement, a shutdown signal
/// ends the loop, and an observed heartbeat just resets the flag.
pub fn watchdog_decide(timed_out: bool, shutdown: bool, heartbeat_seen: bool) -> (r: WatchdogStep)
    ensures
        r.re_register == timed_out,
        r.stop == shutdown,
        r.clear_heartbeat == heartbeat_seen,
{
    WatchdogStep { re_register: timed_out, stop: shutdown, clear_heartbeat: heartbeat_seen }
}

/// How the watchdog follows up on a re-announcement: only a response
/// that says `succeed` lets it go straight back to listening; a refusal
/// or a transport error is retried after a short fixed sleep, with no
/// backoff.
pub fn resume_retry_wait(outcome: &Option<bool>) -> (r: Option<u64>)
    ensures
        match outcome {
            Some(true) => r is None,
            Some(false) => r == Some(1000u64),
            None => r == Some(1000u64),
        },
{
    match outcome {
        Some(true) => None,
        _ => Some(1000),
    }
}

} // verus!
