//! A service registry with heartbeat monitoring.
//!
//! Services register with a central registry over an RPC surface, receive
//! dynamically allocated ports through a step/retry negotiation, and are then
//! probed periodically over a length-prefixed wire protocol. This crate holds
//! the verified core: the wire codec, the message types, the registration
//! session protocol, and the decision logic of the heartbeat hub, server,
//! registry and container. The I/O shells that drive these state machines
//! live outside the library.

use vstd::prelude::*;

pub mod container;
pub mod heartbeat;
pub mod registry;
pub mod registry_proto;
pub mod rpc_server;
pub mod wire;

verus! {

/// Identifier a service chooses for itself when registering.
#[derive(Copy, Clone, Hash, Eq, PartialEq, Ord, PartialOrd, Debug, Structural)]
pub struct ServiceId(pub u64);

impl ServiceId {
    /// The raw numeric value of the identifier.
    pub fn value(&self) -> (r: u64)
        ensures
            r == self.0,
    {
        self.0
    }
}

impl From<u64> for ServiceId {
    fn from(u: u64) -> (r: Self) {
        ServiceId(u)
    }
}

impl vstd::std_specs::convert::FromSpecImpl<u64> for ServiceId {
    open spec fn obeys_from_spec() -> bool {
        true
    }

    open spec fn from_spec(u: u64) -> Self {
        ServiceId(u)
    }
}

impl From<usize> for ServiceId {
    fn from(u: usize) -> (r: Self) {
        ServiceId(u as u64)
    }
}

impl vstd::std_specs::convert::FromSpecImpl<usize> for ServiceId {
    open spec fn obeys_from_spec() -> bool {
        true
    }

    open spec fn from_spec(u: usize) -> Self {
        ServiceId(u as u64)
    }
}

/// A host address: four octets, or a sixteen-byte address packed
/// big-endian into one number.
#[derive(Copy, Clone, Hash, Eq, PartialEq, Debug, Structural)]
pub enum HostAddr {
    V4(u8, u8, u8, u8),
    V6(u128),
}

/// A socket address: a host and a port.
#[derive(Copy, Clone, Hash, Eq, PartialEq, Debug, Structural)]
pub struct SockAddr {
    pub host: HostAddr,
    pub port: u16,
}

impl SockAddr {
    /// Pairs a host with a port.
    pub fn new(host: HostAddr, port: u16) -> (r: SockAddr)
        ensures
            r.host == host,
            r.port == port,
    {
        SockAddr { host, port }
    }
}

/// The durable record of a successfully registered service: who it is,
/// where it runs, and where it answers heartbeats.
#[derive(Debug, Clone)]
pub struct Service {
    pub sid: ServiceId,
    pub meta: String,
    pub host: HostAddr,
    pub service_port: u16,
    pub heartbeat_port: u16,
}

impl PartialEq for Service {
    fn eq(&self, other: &Service) -> (r: bool) {
        self.sid == other.sid && self.meta == other.meta && self.host == other.host
            && self.service_port == other.service_port && self.heartbeat_port
            == other.heartbeat_port
    }
}

impl vstd::std_specs::cmp::PartialEqSpecImpl for Service {
    open spec fn obeys_eq_spec() -> bool {
        true
    }

    open spec fn eq_spec(&self, other: &Service) -> bool {
        self.sid == other.sid && self.meta@ == other.meta@ && self.host == other.host
            && self.service_port == other.service_port && self.heartbeat_port
            == other.heartbeat_port
    }
}

impl Service {
    /// Assembles a service record.
    pub fn new(sid: ServiceId, meta: String, host: HostAddr, service_port: u16, heartbeat_port: u16) -> (r:
        Service)
        ensures
            r == (Service { sid, meta, host, service_port, heartbeat_port }),
    {
        Service { sid, meta, host, service_port, heartbeat_port }
    }

    /// Where the service's own logic listens.
    pub fn service_addr(&self) -> (r: SockAddr)
        ensures
            r == (SockAddr { host: self.host, port: self.service_port }),
    {
        SockAddr { host: self.host, port: self.service_port }
    }

    /// Where the service answers heartbeats.
    pub fn heartbeat_addr(&self) -> (r: SockAddr)
        ensures
            r == (SockAddr { host: self.host, port: self.heartbeat_port }),
    {
        SockAddr { host: self.host, port: self.heartbeat_port }
    }

    /// The service's identifier.
    pub fn service_id(&self) -> (r: ServiceId)
        ensures
            r == self.sid,
    {
        self.sid
    }

    /// The service's descriptive tag.
    pub fn meta(&self) -> (r: &str)
        ensures
            r@ == self.meta@,
    {
        self.meta.as_str()
    }
}

} // verus!
