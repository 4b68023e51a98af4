//! The heartbeat hub: the set of monitored targets and the decision logic
//! of the probe/notify/reschedule cycle. The hub here is the state machine
//! alone; an I/O shell feeds it messages from a channel, performs the
//! actions it returns, and holds the map behind a lock for concurrent
//! callers.
//!
//! All durations are in milliseconds.

use std::collections::HashMap;

use vstd::prelude::*;

use super::Error;
use super::heartbeat_proto::{HeartbeatRequest, HeartbeatResponse};
use crate::SockAddr;
use crate::wire::{msg_enc, msg_dec, fields_enc, field_enc, SpecField, WireMessage};

verus! {

broadcast use vstd::std_specs::hash::group_hash_axioms;

/// Relies on `uuid::Uuid::new_v4`, which draws a fresh random identifier;
/// nothing can be promised of a random value.
#[verifier::external_body]
fn fresh_uuid() -> u64 {
    uuid::Uuid::new_v4().as_u64_pair().0
}

/// The encoding of a probe request is empty exactly when the request is
/// the all-defaults message.
pub proof fn lemma_zero_payload(req: HeartbeatRequest)
    ensures
        msg_enc::<HeartbeatRequest>(req).len() == 0 <==> req.msg == 0,
{
    if req.msg == 0 {
        assert(msg_enc::<HeartbeatRequest>(req) =~= Seq::<u8>::empty());
    } else {
        let fl = HeartbeatRequest::field_list(req);
        let f = SpecField::Varint(1, req.msg as u64);
        assert(fl.drop_first() =~= Seq::<SpecField>::empty());
        assert(fields_enc(fl) == field_enc(f) + fields_enc(fl.drop_first()));
        reveal_with_fuel(crate::wire::pow128, 3);
        crate::wire::lemma_varint_enc_len(8, 1);
    }
}

/// One probe to carry out: where to connect, whose result this will be,
/// and what to send, with the target's own timeout if it has one.
#[derive(Debug, Clone)]
pub struct HeartbeatTask {
    pub addr: SockAddr,
    pub uuid: u64,
    pub timeout: Option<u64>,
    pub payload: Option<Vec<u8>>,
}

/// The mathematical model of a probe task: the payload as a byte
/// sequence.
pub struct TaskView {
    pub addr: SockAddr,
    pub uuid: u64,
    pub timeout: Option<u64>,
    pub payload: Option<Seq<u8>>,
}

impl View for HeartbeatTask {
    type V = TaskView;

    open spec fn view(&self) -> TaskView {
        TaskView {
            addr: self.addr,
            uuid: self.uuid,
            timeout: self.timeout,
            payload: match self.payload {
                Some(p) => Some(p@),
                None => None,
            },
        }
    }
}

/// One remote endpoint to probe: address, probe cadence, and the request
/// payload, each falling back to the hub's defaults when unset.
#[derive(Debug, Clone)]
pub struct Target {
    pub addr: SockAddr,
    pub uuid: u64,
    pub interval: Option<u64>,
    pub timeout: Option<u64>,
    pub payload: Option<Vec<u8>>,
}

/// The probe task a target stands for, at the model level.
pub open spec fn spec_task(t: Target) -> TaskView {
    TaskView {
        addr: t.addr,
        uuid: t.uuid,
        timeout: t.timeout,
        payload: match t.payload {
            Some(p) => Some(p@),
            None => None,
        },
    }
}

impl Target {
    /// A target with a fresh id and every option unset, probing `addr`.
    pub fn new(addr: SockAddr) -> (r: Target)
        ensures
            r.addr == addr,
            r.interval is None,
            r.timeout is None,
            r.payload is None,
    {
        Target { addr, uuid: fresh_uuid(), interval: None, timeout: None, payload: None }
    }

    /// The target's id.
    pub fn get_id(&self) -> (r: u64)
        ensures
            r == self.uuid,
    {
        self.uuid
    }

    /// The probe interval, if this target overrides the hub's.
    pub fn get_interval(&self) -> (r: Option<u64>)
        ensures
            r == self.interval,
    {
        self.interval
    }

    /// The probe timeout, if this target overrides the hub's.
    pub fn get_timeout(&self) -> (r: Option<u64>)
        ensures
            r == self.timeout,
    {
        self.timeout
    }

    /// The serialized request, if this target overrides the hub's.
    pub fn get_payload(&self) -> (r: &Option<Vec<u8>>)
        ensures
            r == self.payload,
    {
        &self.payload
    }

    /// The probe task this target stands for.
    pub fn gen_task(&self) -> (r: HeartbeatTask)
        ensures
            r@ == spec_task(*self),
    {
        let payload: Option<Vec<u8>> = match &self.payload {
            Some(p) => Some(p.clone()),
            None => None,
        };
        let r = HeartbeatTask { addr: self.addr, uuid: self.uuid, timeout: self.timeout, payload };
        proof {
            match &self.payload {
                Some(p) => {
                    assert(r@.payload matches Some(q) && q =~= p@);
                },
                None => {},
            }
        }
        r
    }
}

/// Builds a `Target`, validating at `build` time that the request payload,
/// if one was given, serializes to at least one byte: an empty payload is
/// indistinguishable on the wire from no data at all.
pub struct TargetBuilder {
    pub addr: SockAddr,
    pub uuid: u64,
    pub interval: Option<u64>,
    pub timeout: Option<u64>,
    pub request: Option<HeartbeatRequest>,
}

impl TargetBuilder {
    /// Starts a builder for a target probing `addr`, with a fresh id.
    pub fn new(addr: SockAddr) -> (r: TargetBuilder)
        ensures
            r.addr == addr,
            r.interval is None,
            r.timeout is None,
            r.request is None,
    {
        TargetBuilder { addr, uuid: fresh_uuid(), interval: None, timeout: None, request: None }
    }

    /// Gives the target its own probe request.
    pub fn request(self, request: HeartbeatRequest) -> (r: TargetBuilder)
        ensures
            r == (TargetBuilder { request: Some(request), ..self }),
    {
        TargetBuilder { request: Some(request), ..self }
    }

    /// Gives the target its own probe interval, in milliseconds.
    pub fn interval(self, interval: u64) -> (r: TargetBuilder)
        ensures
            r == (TargetBuilder { interval: Some(interval), ..self }),
    {
        TargetBuilder { interval: Some(interval), ..self }
    }

    /// Gives the target its own probe timeout, in milliseconds.
    pub fn timeout(self, timeout: u64) -> (r: TargetBuilder)
        ensures
            r == (TargetBuilder { timeout: Some(timeout), ..self }),
    {
        TargetBuilder { timeout: Some(timeout), ..self }
    }

    /// Validates and builds the target. Succeeds for every request that
    /// serializes to at least one byte — that is, every request other than
    /// the all-defaults one — and for a builder with no request at all;
    /// fails with `ZeroPayload` exactly on the all-defaults request.
    pub fn build(self) -> (r: Result<Target, Error>)
        ensures
            match r {
                Ok(t) => {
                    &&& !(self.request matches Some(req) && req.msg == 0)
                    &&& t.addr == self.addr
                    &&& t.uuid == self.uuid
                    &&& t.interval == self.interval
                    &&& t.timeout == self.timeout
                    &&& match self.request {
                        Some(req) => t.payload matches Some(p) && p@ == msg_enc::<
                            HeartbeatRequest,
                        >(req),
                        None => t.payload is None,
                    }
                },
                Err(e) => {
                    &&& e is ZeroPayload
                    &&& self.request matches Some(req) && req.msg == 0
                },
            },
    {
        let payload: Option<Vec<u8>> = match self.request {
            Some(req) => {
                proof {
                    lemma_zero_payload(req);
                }
                let bytes = req.write_to_bytes();
                if bytes.len() == 0 {
                    return Err(Error::ZeroPayload);
                }
                Some(bytes)
            },
            None => None,
        };
        Ok(
            Target {
                addr: self.addr,
                uuid: self.uuid,
                interval: self.interval,
                timeout: self.timeout,
                payload,
            },
        )
    }
}

/// What the hub's loop reads from its channel.
pub enum HubMessage {
    /// A probe task to hand to the worker.
    HeartbeatRequest(HeartbeatTask),
    /// The outcome of a probe for the target with this id.
    HeartbeatResponse(u64, Result<HeartbeatResponse, Error>),
    /// The cooling period of this target is over; probe it again.
    WakeupTarget(u64),
    /// Shut the loop down.
    Stop,
}

/// What the hub asks its shell to carry out, in order.
pub enum HubAction {
    /// Hand this probe task to the worker.
    Schedule(HeartbeatTask),
    /// Deliver this probe result to the target's observer and to the
    /// hub-level observer.
    Notify(u64, Result<HeartbeatResponse, Error>),
    /// Arm a one-shot timer for this many milliseconds, then post
    /// `WakeupTarget` for this id.
    ArmTimer(u64, u64),
}

/// The mathematical model of a hub action.
pub enum HubActionView {
    Schedule(TaskView),
    Notify(u64, Result<HeartbeatResponse, Error>),
    ArmTimer(u64, u64),
}

impl View for HubAction {
    type V = HubActionView;

    open spec fn view(&self) -> HubActionView {
        match self {
            HubAction::Schedule(task) => HubActionView::Schedule(task@),
            HubAction::Notify(id, res) => HubActionView::Notify(*id, *res),
            HubAction::ArmTimer(wait, id) => HubActionView::ArmTimer(*wait, *id),
        }
    }
}

/// The models of a list of actions, in order.
pub open spec fn action_views(s: Seq<HubAction>) -> Seq<HubActionView> {
    s.map_values(|a: HubAction| a@)
}

/// The interval the hub uses for a target: its own, or the hub's default.
pub open spec fn spec_effective_interval(t: Target, dflt: u64) -> u64 {
    match t.interval {
        Some(i) => i,
        None => dflt,
    }
}

/// The timeout the worker uses for a task: its own, or the default.
pub open spec fn spec_effective_timeout(timeout: Option<u64>, dflt: u64) -> u64 {
    match timeout {
        Some(t) => t,
        None => dflt,
    }
}

/// The target map after a probe result for `id` arrives: untouched if the
/// id is unknown or the probe succeeded; without the target if the probe
/// failed — a failing heartbeat signals the remote is gone, so there is no
/// retry, and the owner must re-add the target explicitly.
pub open spec fn response_step(targets: Map<u64, Target>, id: u64, ok: bool) -> Map<u64, Target> {
    if !targets.contains_key(id) {
        targets
    } else if ok {
        targets
    } else {
        targets.remove(id)
    }
}

/// The actions a probe result for `id` raises: none if the id is unknown
/// (the remove-before-response race is tolerated silently); otherwise the
/// observers hear the result, and on success a timer is armed for the
/// target's effective interval.
pub open spec fn response_actions(
    targets: Map<u64, Target>,
    dflt_interval: u64,
    id: u64,
    res: Result<HeartbeatResponse, Error>,
) -> Seq<HubActionView> {
    if !targets.contains_key(id) {
        Seq::empty()
    } else if res is Ok {
        seq![
            HubActionView::Notify(id, res),
            HubActionView::ArmTimer(spec_effective_interval(targets[id], dflt_interval), id),
        ]
    } else {
        seq![HubActionView::Notify(id, res)]
    }
}

/// The actions a wakeup for `id` raises: the target's probe task again if
/// it is still wanted, nothing if it was removed meanwhile.
pub open spec fn wakeup_actions(targets: Map<u64, Target>, id: u64) -> Seq<HubActionView> {
    if targets.contains_key(id) {
        seq![HubActionView::Schedule(spec_task(targets[id]))]
    } else {
        Seq::empty()
    }
}

/// The hub: the live set of targets and the defaults that fill in what a
/// target leaves unset.
pub struct Hub {
    pub targets: HashMap<u64, Target>,
    pub interval: u64,
    pub timeout: u64,
    pub payload: Vec<u8>,
}

/// Builds a `Hub`, validating the shared probe request the same way
/// `TargetBuilder::build` validates a per-target one.
pub struct HubBuilder {
    pub timeout: u64,
    pub interval: u64,
    pub request: HeartbeatRequest,
}

impl HubBuilder {
    /// Starts a builder around the shared probe request, with a default
    /// timeout of five seconds and a default interval of one second.
    pub fn new(request: HeartbeatRequest) -> (r: HubBuilder)
        ensures
            r.request == request,
            r.timeout == 5000u64,
            r.interval == 1000u64,
    {
        HubBuilder { timeout: 5000, interval: 1000, request }
    }

    /// Sets the default probe timeout, in milliseconds.
    pub fn timeout(self, timeout: u64) -> (r: HubBuilder)
        ensures
            r == (HubBuilder { timeout, ..self }),
    {
        HubBuilder { timeout, ..self }
    }

    /// Sets the default probe interval, in milliseconds.
    pub fn interval(self, interval: u64) -> (r: HubBuilder)
        ensures
            r == (HubBuilder { interval, ..self }),
    {
        HubBuilder { interval, ..self }
    }

    /// Validates and builds the hub: succeeds for every shared request
    /// other than the all-defaults one, which fails with `ZeroPayload`.
    pub fn build(self) -> (r: Result<Hub, Error>)
        ensures
            match r {
                Ok(h) => {
                    &&& self.request.msg != 0
                    &&& h.targets@ == Map::<u64, Target>::empty()
                    &&& h.interval == self.interval
                    &&& h.timeout == self.timeout
                    &&& h.payload@ == msg_enc::<HeartbeatRequest>(self.request)
                },
                Err(e) => e is ZeroPayload && self.request.msg == 0,
            },
    {
        proof {
            lemma_zero_payload(self.request);
        }
        let payload = self.request.write_to_bytes();
        if payload.len() == 0 {
            return Err(Error::ZeroPayload);
        }
        Ok(Hub { targets: HashMap::new(), interval: self.interval, timeout: self.timeout, payload })
    }
}

impl Hub {
    /// A hub around the shared probe request, with the default cadence.
    pub fn new(request: HeartbeatRequest) -> (r: Result<Hub, Error>)
        ensures
            match r {
                Ok(h) => {
                    &&& request.msg != 0
                    &&& h.targets@ == Map::<u64, Target>::empty()
                    &&& h.interval == 1000u64
                    &&& h.timeout == 5000u64
                    &&& h.payload@ == msg_enc::<HeartbeatRequest>(request)
                },
                Err(e) => e is ZeroPayload && request.msg == 0,
            },
    {
        HubBuilder::new(request).build()
    }

    /// Admits a target and hands back its id together with the first probe
    /// task, which the shell posts to the loop.
    pub fn add_target(&mut self, target: Target) -> (r: (u64, HeartbeatTask))
        ensures
            final(self).targets@ == old(self).targets@.insert(target.uuid, target),
            final(self).interval == old(self).interval,
            final(self).timeout == old(self).timeout,
            final(self).payload == old(self).payload,
            r.0 == target.uuid,
            r.1@ == spec_task(target),
    {
        let uuid: u64 = target.uuid;
        let task = target.gen_task();
        self.targets.insert(uuid, target);
        (uuid, task)
    }

    /// Removes a target, returning it to the caller; no further probe of
    /// it will be scheduled, and a result already in flight will be
    /// dropped silently by the loop.
    pub fn remove_target(&mut self, id: u64) -> (r: Option<Target>)
        ensures
            final(self).targets@ == old(self).targets@.remove(id),
            final(self).interval == old(self).interval,
            final(self).timeout == old(self).timeout,
            final(self).payload == old(self).payload,
            match r {
                Some(t) => old(self).targets@.contains_key(id) && t == old(self).targets@[id],
                None => !old(self).targets@.contains_key(id),
            },
    {
        self.targets.remove(&id)
    }

    /// One turn of the hub's loop: takes the next message, updates the
    /// target set, and returns whether to keep running together with the
    /// actions the shell must carry out, in order.
    pub fn handle_message(&mut self, msg: HubMessage) -> (r: (bool, Vec<HubAction>))
        ensures
            final(self).interval == old(self).interval,
            final(self).timeout == old(self).timeout,
            final(self).payload == old(self).payload,
            match msg {
                HubMessage::Stop => {
                    &&& !r.0
                    &&& action_views(r.1@) == Seq::<HubActionView>::empty()
                    &&& final(self).targets@ == old(self).targets@
                },
                HubMessage::HeartbeatRequest(task) => {
                    &&& r.0
                    &&& action_views(r.1@) == seq![HubActionView::Schedule(task@)]
                    &&& final(self).targets@ == old(self).targets@
                },
                HubMessage::WakeupTarget(id) => {
                    &&& r.0
                    &&& action_views(r.1@) == wakeup_actions(old(self).targets@, id)
                    &&& final(self).targets@ == old(self).targets@
                },
                HubMessage::HeartbeatResponse(id, res) => {
                    &&& r.0
                    &&& action_views(r.1@) == response_actions(
                        old(self).targets@,
                        old(self).interval,
                        id,
                        res,
                    )
                    &&& final(self).targets@ == response_step(old(self).targets@, id, res is Ok)
                },
            },
    {
        match msg {
            HubMessage::Stop => {
                let actions: Vec<HubAction> = Vec::new();
                assert(action_views(actions@) =~= Seq::<HubActionView>::empty());
                (false, actions)
            },
            HubMessage::HeartbeatRequest(task) => {
                let ghost task0 = task@;
                let mut actions: Vec<HubAction> = Vec::new();
                actions.push(HubAction::Schedule(task));
                assert(action_views(actions@) =~= seq![HubActionView::Schedule(task0)]);
                (true, actions)
            },
            HubMessage::WakeupTarget(id) => {
                let mut actions: Vec<HubAction> = Vec::new();
                match self.targets.get(&id) {
                    Some(target) => {
                        actions.push(HubAction::Schedule(target.gen_task()));
                        assert(action_views(actions@) =~= wakeup_actions(self.targets@, id));
                    },
                    None => {
                        assert(action_views(actions@) =~= wakeup_actions(self.targets@, id));
                    },
                }
                (true, actions)
            },
            HubMessage::HeartbeatResponse(id, res) => {
                let ghost res0 = res;
                let mut actions: Vec<HubAction> = Vec::new();
                match self.targets.remove(&id) {
                    None => {
                        assert(action_views(actions@) =~= response_actions(
                            old(self).targets@,
                            self.interval,
                            id,
                            res0,
                        ));
                        assert(self.targets@ =~= old(self).targets@);
                        (true, actions)
                    },
                    Some(target) => {
                        let ok = res.is_ok();
                        let ghost interval_action = HubActionView::ArmTimer(
                            spec_effective_interval(old(self).targets@[id], self.interval),
                            id,
                        );
                        actions.push(HubAction::Notify(id, res));
                        if ok {
                            let wait: u64 = match target.interval {
                                Some(i) => i,
                                None => self.interval,
                            };
                            actions.push(HubAction::ArmTimer(wait, id));
                            self.targets.insert(id, target);
                            assert(self.targets@ =~= old(self).targets@);
                        } else {
                            assert(self.targets@ =~= old(self).targets@.remove(id));
                        }
                        proof {
                            if ok {
                                assert(action_views(actions@) =~= seq![
                                    HubActionView::Notify(id, res0),
                                    interval_action,
                                ]);
                            } else {
                                assert(action_views(actions@) =~= seq![
                                    HubActionView::Notify(id, res0),
                                ]);
                            }
                        }
                        (true, actions)
                    },
                }
            },
        }
    }
}

/// Classifies the outcome of one probe's race between the network
/// round-trip and the timeout timer: whichever finished first decides.
pub enum ProbeOutcome {
    /// The timer won; the round-trip, if it ever finishes, is discarded.
    TimedOut,
    /// The round-trip finished first, with the peer's frame payload or a
    /// described network failure.
    Completed(Result<Vec<u8>, String>),
}

/// Turns a probe outcome into the result the hub reports for the target:
/// a timeout is kept distinct from a network failure, so the owner can
/// retry and alert differently; a reply that does not parse counts as a
/// network failure.
pub fn finish_probe(outcome: ProbeOutcome) -> (r: Result<HeartbeatResponse, Error>)
    ensures
        match outcome {
            ProbeOutcome::TimedOut => r matches Err(e) && e is Timeout,
            ProbeOutcome::Completed(io) => match io {
                Err(_) => r matches Err(e) && e is IoErr,
                Ok(bytes) => match msg_dec::<HeartbeatResponse>(bytes@) {
                    Some(q) => r matches Ok(got) && got == q,
                    None => r matches Err(e) && e is IoErr,
                },
            },
        },
{
    match outcome {
        ProbeOutcome::TimedOut => Err(Error::Timeout),
        ProbeOutcome::Completed(io) => match io {
            Err(e) => Err(Error::IoErr(e)),
            Ok(bytes) => match HeartbeatResponse::parse_from_bytes(bytes.as_slice()) {
                Some(q) => Ok(q),
                None => Err(Error::IoErr(String::new())),
            },
        },
    }
}

/// The timeout a probe task runs under: its own, or the worker's default.
pub fn effective_timeout(timeout: &Option<u64>, dflt: u64) -> (r: u64)
    ensures
        r == spec_effective_timeout(*timeout, dflt),
{
    match timeout {
        Some(t) => *t,
        None => dflt,
    }
}

/// A probe result for an id no longer in the map — the target was removed
/// while the probe was in flight — changes nothing and notifies nobody:
/// after `remove_target`, no observer hears of that target again.
pub proof fn lemma_removed_target_response_ignored(
    targets: Map<u64, Target>,
    dflt_interval: u64,
    id: u64,
    res: Result<HeartbeatResponse, Error>,
)
    requires
        !targets.contains_key(id),
    ensures
        response_step(targets, id, res is Ok) == targets,
        response_actions(targets, dflt_interval, id, res).len() == 0,
{
}

/// A wakeup for an id no longer in the map schedules nothing: a pending
/// cooling timer of a removed target fires into the void.
pub proof fn lemma_removed_target_wakeup_ignored(targets: Map<u64, Target>, id: u64)
    requires
        !targets.contains_key(id),
    ensures
        wakeup_actions(targets, id).len() == 0,
{
}

/// One successful probe cycle: the target stays in the map unchanged, the
/// observers hear the success, a timer is armed for exactly the target's
/// effective interval, and the wakeup it later posts schedules exactly
/// the target's own task again. The hub ends the cycle where it began, so
/// consecutive successful probes repeat at that interval indefinitely.
pub proof fn lemma_success_cycle(
    targets: Map<u64, Target>,
    dflt_interval: u64,
    id: u64,
    res: Result<HeartbeatResponse, Error>,
)
    requires
        targets.contains_key(id),
        res is Ok,
    ensures
        response_step(targets, id, true) == targets,
        response_actions(targets, dflt_interval, id, res) == seq![
            HubActionView::Notify(id, res),
            HubActionView::ArmTimer(spec_effective_interval(targets[id], dflt_interval), id),
        ],
        wakeup_actions(targets, id) == seq![HubActionView::Schedule(spec_task(targets[id]))],
{
}

/// A failed probe removes the target and notifies the observers exactly
/// once; nothing is rescheduled, so the probe chain for that target ends
/// until its owner re-adds it.
pub proof fn lemma_failure_removes_target(
    targets: Map<u64, Target>,
    dflt_interval: u64,
    id: u64,
    res: Result<HeartbeatResponse, Error>,
)
    requires
        targets.contains_key(id),
        !(res is Ok),
    ensures
        response_step(targets, id, false) == targets.remove(id),
        response_actions(targets, dflt_interval, id, res) == seq![HubActionView::Notify(id, res)],
        !response_step(targets, id, false).contains_key(id),
{
}

} // verus!
