//! The heartbeat subsystem: the probe messages, the hub that drives a
//! probe/reschedule cycle per monitored target, and the server side that
//! answers probes.

use vstd::prelude::*;

pub mod heartbeat_proto;

mod hub;
mod server;

pub use hub::{
    Target, TargetBuilder, HeartbeatTask, TaskView, Hub, HubBuilder, HubAction, HubActionView,
    HubMessage, ProbeOutcome, finish_probe, effective_timeout, action_views, response_actions,
    response_step, wakeup_actions, spec_task, spec_effective_interval, spec_effective_timeout,
    lemma_removed_target_response_ignored, lemma_removed_target_wakeup_ignored,
    lemma_success_cycle, lemma_failure_removes_target, lemma_zero_payload,
};
pub use server::{
    Server, ServerError, Handler, FixedResponder, process_request, spec_process,
    lemma_server_round_trip,
};

verus! {

/// What can go wrong in the heartbeat subsystem.
#[derive(Debug, Clone)]
pub enum Error {
    /// The probe request could not be serialized; fatal to construction.
    SerializeFailed(String),
    /// The probe request serializes to no bytes at all, which the wire
    /// could not tell from silence; fatal to construction.
    ZeroPayload,
    /// The network failed or the peer answered with a malformed frame;
    /// terminal for that target's probe chain.
    IoErr(String),
    /// The probe timer won the race against the reply.
    Timeout,
    /// The hub was already shut down; all further calls fail fast.
    HubStopped,
}

impl Error {
    /// Whether this is the network-failure variant.
    pub fn is_io_error(&self) -> (r: bool)
        ensures
            r == (self is IoErr),
    {
        match *self {
            Error::IoErr(_) => true,
            _ => false,
        }
    }

    /// Whether this is the timeout variant.
    pub fn is_timeout(&self) -> (r: bool)
        ensures
            r == (self is Timeout),
    {
        match *self {
            Error::Timeout => true,
            _ => false,
        }
    }

    /// Whether this is the empty-payload variant.
    pub fn is_zero_payload(&self) -> (r: bool)
        ensures
            r == (self is ZeroPayload),
    {
        match *self {
            Error::ZeroPayload => true,
            _ => false,
        }
    }

    /// Whether this is the serialization-failure variant.
    pub fn is_serialize_failed(&self) -> (r: bool)
        ensures
            r == (self is SerializeFailed),
    {
        match *self {
            Error::SerializeFailed(_) => true,
            _ => false,
        }
    }

    /// Whether this is the hub-already-stopped variant.
    pub fn is_hub_stoped(&self) -> (r: bool)
        ensures
            r == (self is HubStopped),
    {
        match *self {
            Error::HubStopped => true,
            _ => false,
        }
    }
}

} // verus!
