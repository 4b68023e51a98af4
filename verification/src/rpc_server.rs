//! The registration side of the registry: the session table, the port
//! step protocol, and the parsing of peer addresses handed over by the
//! RPC layer. The RPC transport itself lives in an I/O shell; this module
//! decides what every call returns and how the table changes.

use std::collections::HashMap;

use vstd::prelude::*;

use crate::{HostAddr, Service, ServiceId, SockAddr};
use crate::registry_proto::{
    RegisterResponse, StatusRequest, StatusResponse, ReRegisterRequest, ReRegisterResponse,
};

verus! {

broadcast use vstd::std_specs::hash::group_hash_axioms;

/// What the registry cannot make sense of in a peer address.
#[derive(Clone, Copy, Debug, PartialEq, Eq, Structural)]
pub enum AddrError {
    /// The raw host bytes are neither a four-octet nor a sixteen-byte
    /// address.
    InvalidAddr,
}

/// 256 raised to `k`; bounds the value `k` big-endian bytes can carry.
pub open spec fn pow256(k: nat) -> nat
    decreases k,
{
    if k == 0 {
        1
    } else {
        256 * pow256((k - 1) as nat)
    }
}

/// The value of a big-endian byte string.
pub open spec fn bytes_be_val(s: Seq<u8>) -> nat
    decreases s.len(),
{
    if s.len() == 0 {
        0
    } else {
        (bytes_be_val(s.drop_last()) * 256 + s.last()) as nat
    }
}

/// A big-endian byte string of length `k` stays below `pow256(k)`.
pub proof fn lemma_bytes_be_val_bound(s: Seq<u8>)
    ensures
        bytes_be_val(s) < pow256(s.len()),
    decreases s.len(),
{
    if s.len() > 0 {
        lemma_bytes_be_val_bound(s.drop_last());
        let p = pow256((s.len() - 1) as nat);
        assert(pow256(s.len()) == 256 * p);
        assert(bytes_be_val(s.drop_last()) * 256 <= (p - 1) * 256) by (nonlinear_arith)
            requires
                bytes_be_val(s.drop_last()) < p,
        ;
    }
}

/// Reads raw host bytes: four octets make a `V4` host, sixteen bytes make
/// a `V6` host packed big-endian, and every other length is rejected.
pub fn bytes_to_host(host: &[u8]) -> (r: Result<HostAddr, AddrError>)
    ensures
        match r {
            Ok(h) => (host@.len() == 4 && h == HostAddr::V4(host@[0], host@[1], host@[2], host@[3]))
                || (host@.len() == 16 && h == HostAddr::V6(bytes_be_val(host@) as u128)),
            Err(e) => host@.len() != 4 && host@.len() != 16 && e is InvalidAddr,
        },
{
    if host.len() == 4 {
        Ok(HostAddr::V4(host[0], host[1], host[2], host[3]))
    } else if host.len() == 16 {
        let mut acc: u128 = 0;
        let mut i: usize = 0;
        proof {
            assert(host@.take(0) =~= Seq::<u8>::empty());
        }
        while i < 16
            invariant
                i <= 16,
                host@.len() == 16,
                acc == bytes_be_val(host@.take(i as int)),
                acc < pow256(i as nat),
            decreases 16 - i,
        {
            proof {
                let pre = host@.take(i as int);
                let next = host@.take(i + 1);
                assert(next.drop_last() =~= pre);
                assert(next.last() == host@[i as int]);
                let p = pow256(i as nat);
                assert(pow256((i + 1) as nat) == 256 * p);
                assert(bytes_be_val(pre) * 256 <= (p - 1) * 256) by (nonlinear_arith)
                    requires
                        bytes_be_val(pre) < p,
                ;
                reveal_with_fuel(pow256, 17);
            }
            acc = acc * 256 + (host[i] as u128);
            i = i + 1;
        }
        proof {
            assert(host@.take(16) =~= host@);
        }
        Ok(HostAddr::V6(acc))
    } else {
        Err(AddrError::InvalidAddr)
    }
}

/// Whether a byte is an ASCII decimal digit.
pub open spec fn is_digit(b: u8) -> bool {
    48 <= b <= 57
}

/// The length of the run of digits starting at `i`.
pub open spec fn digit_run(s: Seq<u8>, i: int) -> int
    decreases s.len() - i when 0 <= i <= s.len()
{
    if i < s.len() && is_digit(s[i]) {
        1 + digit_run(s, i + 1)
    } else {
        0
    }
}

/// The decimal value of the digits `s[i..j]`.
pub open spec fn digits_val(s: Seq<u8>, i: int, j: int) -> nat
    decreases j - i when i <= j
{
    if i >= j {
        0
    } else {
        digits_val(s, i, j - 1) * 10 + (s[j - 1] - 48) as nat
    }
}

/// The octets of a dotted-decimal string, read from position `i`: groups
/// of one to three digits valued at most 255, separated by single dots,
/// running to the end; anything else yields nothing.
pub open spec fn octets_from(s: Seq<u8>, i: int) -> Option<Seq<u8>>
    decreases s.len() - i when 0 <= i <= s.len()
{
    let n: int = digit_run(s, i);
    if n < 1 || n > 3 {
        None
    } else if digits_val(s, i, i + n) > 255 {
        None
    } else if i + n == s.len() {
        Some(seq![digits_val(s, i, i + n) as u8])
    } else if s[i + n] == 46 {
        if i + n + 1 <= s.len() {
            match octets_from(s, i + n + 1) {
                None => None,
                Some(rest) => Some(seq![digits_val(s, i, i + n) as u8] + rest),
            }
        } else {
            None
        }
    } else {
        None
    }
}

/// The position of the first colon in `s`, from `i` on.
pub open spec fn colon_pos(s: Seq<u8>, i: int) -> Option<int>
    decreases s.len() - i when 0 <= i <= s.len()
{
    if i == s.len() {
        None
    } else if s[i] == 58 {
        Some(i)
    } else {
        colon_pos(s, i + 1)
    }
}

/// The host octets of an `address:port` byte string: the dotted-decimal
/// prefix before the first colon, if both parts are shaped as expected.
pub open spec fn host_bytes_of(s: Seq<u8>) -> Option<Seq<u8>> {
    match colon_pos(s, 0) {
        None => None,
        Some(c) => octets_from(s.subrange(0, c), 0),
    }
}

/// A run of digits observed byte-by-byte is the run the spec counts.
proof fn lemma_digit_run(s: Seq<u8>, i: int, j: int)
    requires
        0 <= i <= j <= s.len(),
        forall|k: int| i <= k < j ==> is_digit(#[trigger] s[k]),
        j == s.len() || !is_digit(s[j]),
    ensures
        digit_run(s, i) == j - i,
    decreases j - i,
{
    if i < j {
        lemma_digit_run(s, i + 1, j);
    }
}

/// Parses the dotted-decimal prefix of `prefix` into octets, exactly as
/// `octets_from` reads it.
pub fn parse_octets(prefix: &[u8]) -> (r: Option<Vec<u8>>)
    ensures
        match r {
            None => octets_from(prefix@, 0) is None,
            Some(v) => octets_from(prefix@, 0) == Some(v@),
        },
{
    let s_len: usize = prefix.len();
    let mut pos: usize = 0;
    let mut acc: Vec<u8> = Vec::new();
    loop
        invariant
            0 <= pos <= s_len,
            s_len == prefix@.len(),
            octets_from(prefix@, 0) == match octets_from(prefix@, pos as int) {
                None => None::<Seq<u8>>,
                Some(rest) => Some(acc@ + rest),
            },
        decreases s_len - pos,
    {
        // Scan the digit run that must start here.
        let mut j: usize = pos;
        while j < s_len && prefix[j] >= 48 && prefix[j] <= 57
            invariant
                pos <= j <= s_len,
                s_len == prefix@.len(),
                forall|k: int| pos <= k < j ==> is_digit(#[trigger] prefix@[k]),
            decreases s_len - j,
        {
            j = j + 1;
        }
        proof {
            lemma_digit_run(prefix@, pos as int, j as int);
        }
        let n: usize = j - pos;
        if n < 1 || n > 3 {
            return None;
        }
        let mut v: u32 = 0;
        let mut k: usize = pos;
        while k < j
            invariant
                pos <= k <= j <= s_len,
                s_len == prefix@.len(),
                j - pos <= 3,
                forall|t: int| pos <= t < j ==> is_digit(#[trigger] prefix@[t]),
                v == digits_val(prefix@, pos as int, k as int),
                v < if k - pos == 0 {
                    1int
                } else if k - pos == 1 {
                    10int
                } else if k - pos == 2 {
                    100int
                } else {
                    1000int
                },
            decreases j - k,
        {
            v = v * 10 + (prefix[k] - 48) as u32;
            k = k + 1;
        }
        if v > 255 {
            return None;
        }
        let ghost pre = acc@;
        acc.push(v as u8);
        if j == s_len {
            proof {
                assert(pre + seq![v as u8] =~= acc@);
            }
            return Some(acc);
        }
        if prefix[j] != 46 {
            return None;
        }
        proof {
            match octets_from(prefix@, j + 1) {
                None => {},
                Some(rest) => {
                    assert(pre + (seq![v as u8] + rest) =~= acc@ + rest);
                },
            }
        }
        pos = j + 1;
    }
}

/// Extracts the host octets from the `address:port` bytes the RPC layer
/// reports for a peer, refusing any shape `host_bytes_of` does not give a
/// value for.
pub fn try_extract_host(addr: &[u8]) -> (r: Option<Vec<u8>>)
    ensures
        match r {
            None => host_bytes_of(addr@) is None,
            Some(v) => host_bytes_of(addr@) == Some(v@),
        },
{
    let mut c: usize = 0;
    loop
        invariant
            0 <= c <= addr@.len(),
            colon_pos(addr@, 0) == colon_pos(addr@, c as int),
            forall|k: int| 0 <= k < c ==> addr@[k] != 58,
        ensures
            c < addr@.len(),
            addr@[c as int] == 58,
            colon_pos(addr@, 0) == Some(c as int),
        decreases addr@.len() - c,
    {
        if c == addr.len() {
            return None;
        }
        if addr[c] == 58 {
            break;
        }
        c = c + 1;
    }
    let prefix = vstd::slice::slice_subrange(addr, 0, c);
    parse_octets(prefix)
}

/// Extracts the host octets of a well-shaped `address:port` byte string.
pub fn extract_host_from_grpc_bytes(addr: &[u8]) -> (r: Vec<u8>)
    requires
        host_bytes_of(addr@) is Some,
    ensures
        host_bytes_of(addr@) == Some(r@),
{
    match try_extract_host(addr) {
        Some(v) => v,
        None => Vec::new(),
    }
}

/// How the registry server is configured: where it listens, the first
/// candidate ports it hands out, and the probe cadence, in milliseconds.
#[derive(Clone, Copy, Debug, PartialEq, Eq, Structural)]
pub struct Config {
    pub server_port: u16,
    pub service_port_base: u16,
    pub heartbeat_port_base: u16,
    pub heartbeat_interval: u64,
}

/// Hands out session ids, each exactly once until the counter wraps.
#[derive(Clone, Copy, Debug, PartialEq, Eq, Structural)]
pub struct SessionIdGen {
    pub next_id: u64,
}

impl SessionIdGen {
    /// A generator starting at zero.
    pub fn new() -> (r: SessionIdGen)
        ensures
            r.next_id == 0,
    {
        SessionIdGen { next_id: 0 }
    }

    /// The next fresh id.
    pub fn next(&mut self) -> (r: u64)
        ensures
            r == old(self).next_id,
            final(self).next_id == if old(self).next_id == u64::MAX {
                0u64
            } else {
                (old(self).next_id + 1) as u64
            },
    {
        let r: u64 = self.next_id;
        if self.next_id == u64::MAX {
            self.next_id = 0;
        } else {
            self.next_id = self.next_id + 1;
        }
        r
    }
}

/// The transient record of one in-progress port negotiation: which
/// service is asking, from where, and the candidate ports it should try
/// next.
#[derive(Clone, Copy, Debug, PartialEq, Eq, Structural)]
pub struct Session {
    pub session_id: u64,
    pub service_id: ServiceId,
    pub host: HostAddr,
    pub service_port: u16,
    pub heartbeat_port: u16,
}

impl Session {
    /// Opens a session at the configured base ports.
    pub fn new(service_id: ServiceId, host: HostAddr, config: &Config, session_id: u64) -> (r:
        Session)
        ensures
            r == (Session {
                session_id,
                service_id,
                host,
                service_port: config.service_port_base,
                heartbeat_port: config.heartbeat_port_base,
            }),
    {
        Session {
            session_id,
            service_id,
            host,
            service_port: config.service_port_base,
            heartbeat_port: config.heartbeat_port_base,
        }
    }

    /// Opens a session for a peer given by its raw host bytes, which must
    /// name a four-octet or sixteen-byte address.
    pub fn from_bytes(service_id: ServiceId, host: &[u8], config: &Config, session_id: u64) -> (r:
        Result<Session, AddrError>)
        ensures
            match r {
                Ok(s) => {
                    &&& (host@.len() == 4 || host@.len() == 16)
                    &&& s.session_id == session_id
                    &&& s.service_id == service_id
                    &&& s.service_port == config.service_port_base
                    &&& s.heartbeat_port == config.heartbeat_port_base
                },
                Err(_) => host@.len() != 4 && host@.len() != 16,
            },
    {
        match bytes_to_host(host) {
            Ok(h) => Ok(Session::new(service_id, h, config, session_id)),
            Err(e) => Err(e),
        }
    }

    /// Where the negotiating service would run.
    pub fn service_addr(&self) -> (r: SockAddr)
        ensures
            r == (SockAddr { host: self.host, port: self.service_port }),
    {
        SockAddr { host: self.host, port: self.service_port }
    }

    /// Where the negotiating service would answer heartbeats.
    pub fn heartbeat_addr(&self) -> (r: SockAddr)
        ensures
            r == (SockAddr { host: self.host, port: self.heartbeat_port }),
    {
        SockAddr { host: self.host, port: self.heartbeat_port }
    }

    /// Moves the candidate service port to the next one.
    pub fn step_service_port(&mut self)
        requires
            old(self).service_port < u16::MAX,
        ensures
            *final(self) == (Session {
                service_port: (old(self).service_port + 1) as u16,
                ..*old(self)
            }),
    {
        self.service_port = self.service_port + 1;
    }

    /// Moves the candidate heartbeat port to the next one.
    pub fn step_heartbeat_port(&mut self)
        requires
            old(self).heartbeat_port < u16::MAX,
        ensures
            *final(self) == (Session {
                heartbeat_port: (old(self).heartbeat_port + 1) as u16,
                ..*old(self)
            }),
    {
        self.heartbeat_port = self.heartbeat_port + 1;
    }

    /// Moves both candidate ports to the next ones.
    pub fn step_both(&mut self)
        requires
            old(self).service_port < u16::MAX,
            old(self).heartbeat_port < u16::MAX,
        ensures
            *final(self) == (Session {
                service_port: (old(self).service_port + 1) as u16,
                heartbeat_port: (old(self).heartbeat_port + 1) as u16,
                ..*old(self)
            }),
    {
        self.step_service_port();
        self.step_heartbeat_port();
    }
}

/// The session a stepped `ReportStatus` call leaves behind: each failed
/// dimension moves forward by exactly one port.
pub open spec fn stepped_session(s: Session, service_ok: bool, heartbeat_ok: bool) -> Session {
    Session {
        service_port: if service_ok {
            s.service_port
        } else {
            (s.service_port + 1) as u16
        },
        heartbeat_port: if heartbeat_ok {
            s.heartbeat_port
        } else {
            (s.heartbeat_port + 1) as u16
        },
        ..s
    }
}

/// The registration service: the table of open sessions, the configured
/// port bases, and the id generator for new sessions.
pub struct RegisterService {
    pub sessions: HashMap<u64, Session>,
    pub config: Config,
    pub id_gen: SessionIdGen,
}

impl RegisterService {
    /// A registry with no open sessions.
    pub fn new(config: Config) -> (r: RegisterService)
        ensures
            r.sessions@ == Map::<u64, Session>::empty(),
            r.config == config,
            r.id_gen.next_id == 0,
    {
        RegisterService { sessions: HashMap::new(), config, id_gen: SessionIdGen::new() }
    }

    /// Puts a session into the table, keyed by its id.
    pub fn add_session(&mut self, s: Session)
        ensures
            final(self).sessions@ == old(self).sessions@.insert(s.session_id, s),
            final(self).config == old(self).config,
            final(self).id_gen == old(self).id_gen,
    {
        self.sessions.insert(s.session_id, s);
    }

    /// Steps both candidate ports of a session, returning the new state,
    /// or nothing for an unknown id.
    pub fn step_both(&mut self, session_id: u64) -> (r: Option<Session>)
        requires
            old(self).sessions@.contains_key(session_id) ==> {
                &&& old(self).sessions@[session_id].service_port < u16::MAX
                &&& old(self).sessions@[session_id].heartbeat_port < u16::MAX
            },
        ensures
            final(self).config == old(self).config,
            final(self).id_gen == old(self).id_gen,
            match r {
                None => !old(self).sessions@.contains_key(session_id) && final(self).sessions@
                    == old(self).sessions@,
                Some(s) => {
                    &&& old(self).sessions@.contains_key(session_id)
                    &&& s == stepped_session(old(self).sessions@[session_id], false, false)
                    &&& final(self).sessions@ == old(self).sessions@.insert(session_id, s)
                },
            },
    {
        match self.sessions.remove(&session_id) {
            None => {
                proof {
                    assert(self.sessions@ =~= old(self).sessions@);
                }
                None
            },
            Some(mut s) => {
                s.step_both();
                self.sessions.insert(session_id, s);
                proof {
                    assert(self.sessions@ =~= old(self).sessions@.insert(session_id, s));
                }
                Some(s)
            },
        }
    }

    /// Steps the candidate heartbeat port of a session, returning the new
    /// state, or nothing for an unknown id.
    pub fn step_heartbeat(&mut self, session_id: u64) -> (r: Option<Session>)
        requires
            old(self).sessions@.contains_key(session_id) ==> old(
                self,
            ).sessions@[session_id].heartbeat_port < u16::MAX,
        ensures
            final(self).config == old(self).config,
            final(self).id_gen == old(self).id_gen,
            match r {
                None => !old(self).sessions@.contains_key(session_id) && final(self).sessions@
                    == old(self).sessions@,
                Some(s) => {
                    &&& old(self).sessions@.contains_key(session_id)
                    &&& s == stepped_session(old(self).sessions@[session_id], true, false)
                    &&& final(self).sessions@ == old(self).sessions@.insert(session_id, s)
                },
            },
    {
        match self.sessions.remove(&session_id) {
            None => {
                proof {
                    assert(self.sessions@ =~= old(self).sessions@);
                }
                None
            },
            Some(mut s) => {
                s.step_heartbeat_port();
                self.sessions.insert(session_id, s);
                proof {
                    assert(self.sessions@ =~= old(self).sessions@.insert(session_id, s));
                }
                Some(s)
            },
        }
    }

    /// Steps the candidate service port of a session, returning the new
    /// state, or nothing for an unknown id.
    pub fn step_service(&mut self, session_id: u64) -> (r: Option<Session>)
        requires
            old(self).sessions@.contains_key(session_id) ==> old(
                self,
            ).sessions@[session_id].service_port < u16::MAX,
        ensures
            final(self).config == old(self).config,
            final(self).id_gen == old(self).id_gen,
            match r {
                None => !old(self).sessions@.contains_key(session_id) && final(self).sessions@
                    == old(self).sessions@,
                Some(s) => {
                    &&& old(self).sessions@.contains_key(session_id)
                    &&& s == stepped_session(old(self).sessions@[session_id], false, true)
                    &&& final(self).sessions@ == old(self).sessions@.insert(session_id, s)
                },
            },
    {
        match self.sessions.remove(&session_id) {
            None => {
                proof {
                    assert(self.sessions@ =~= old(self).sessions@);
                }
                None
            },
            Some(mut s) => {
                s.step_service_port();
                self.sessions.insert(session_id, s);
                proof {
                    assert(self.sessions@ =~= old(self).sessions@.insert(session_id, s));
                }
                Some(s)
            },
        }
    }

    /// Closes a session: removes it from the table and returns its final
    /// state, from which the caller emits the one registration event; an
    /// unknown id closes nothing.
    pub fn finish_session(&mut self, session_id: u64) -> (r: Option<Session>)
        ensures
            final(self).config == old(self).config,
            final(self).id_gen == old(self).id_gen,
            final(self).sessions@ == old(self).sessions@.remove(session_id),
            match r {
                None => !old(self).sessions@.contains_key(session_id),
                Some(s) => old(self).sessions@.contains_key(session_id) && s == old(
                    self,
                ).sessions@[session_id],
            },
    {
        let r = self.sessions.remove(&session_id);
        proof {
            if !old(self).sessions@.contains_key(session_id) {
                assert(self.sessions@ =~= old(self).sessions@.remove(session_id));
            }
        }
        r
    }

    /// Opens a session for `service_id` registering from `host`: the
    /// session starts at the configured base ports under a fresh id, and
    /// the response names those candidates and the session.
    pub fn register(&mut self, service_id: u64, host: HostAddr) -> (r: RegisterResponse)
        ensures
            final(self).config == old(self).config,
            r == (RegisterResponse {
                heartbeat_port: old(self).config.heartbeat_port_base as u32,
                service_port: old(self).config.service_port_base as u32,
                session_id: old(self).id_gen.next_id,
            }),
            final(self).sessions@ == old(self).sessions@.insert(
                old(self).id_gen.next_id,
                Session {
                    session_id: old(self).id_gen.next_id,
                    service_id: ServiceId(service_id),
                    host,
                    service_port: old(self).config.service_port_base,
                    heartbeat_port: old(self).config.heartbeat_port_base,
                },
            ),
    {
        let session_id = self.id_gen.next();
        let s = Session::new(ServiceId(service_id), host, &self.config, session_id);
        self.add_session(s);
        RegisterResponse {
            heartbeat_port: self.config.heartbeat_port_base as u32,
            service_port: self.config.service_port_base as u32,
            session_id,
        }
    }

    /// Answers one `ReportStatus` call.
    ///
    /// An unknown session id answers `succeed == false` and mutates
    /// nothing — the caller learns its session is lost and must register
    /// anew. A known session with both flags set is closed, converting
    /// into the returned service record, the sole source of registration
    /// events. Otherwise each failed dimension steps forward by exactly
    /// one port, the session stays open, and the response carries the new
    /// candidates under the same session id.
    pub fn report_status(&mut self, req: &StatusRequest) -> (r: (StatusResponse, Option<Service>))
        requires
            ({
                let known = old(self).sessions@.contains_key(req.session_id);
                let finished = req.service_succeed && req.heartbeat_succeed;
                known && !finished ==> {
                    let s = old(self).sessions@[req.session_id];
                    &&& (!req.service_succeed ==> s.service_port < u16::MAX)
                    &&& (!req.heartbeat_succeed ==> s.heartbeat_port < u16::MAX)
                }
            }),
        ensures
            final(self).config == old(self).config,
            final(self).id_gen == old(self).id_gen,
            ({
                let known = old(self).sessions@.contains_key(req.session_id);
                let finished = req.service_succeed && req.heartbeat_succeed;
                if !known {
                    &&& r.0 == (StatusResponse {
                        succeed: false,
                        heartbeat_port: 0,
                        service_port: 0,
                        session_id: 0,
                    })
                    &&& r.1 is None
                    &&& final(self).sessions@ == old(self).sessions@
                } else if finished {
                    let s = old(self).sessions@[req.session_id];
                    &&& r.0 == (StatusResponse {
                        succeed: true,
                        heartbeat_port: 0,
                        service_port: 0,
                        session_id: 0,
                    })
                    &&& (r.1 matches Some(svc) && {
                        &&& svc.sid == s.service_id
                        &&& svc.meta@ == Seq::<char>::empty()
                        &&& svc.host == s.host
                        &&& svc.service_port == s.service_port
                        &&& svc.heartbeat_port == s.heartbeat_port
                    })
                    &&& final(self).sessions@ == old(self).sessions@.remove(req.session_id)
                } else {
                    let s2 = stepped_session(
                        old(self).sessions@[req.session_id],
                        req.service_succeed,
                        req.heartbeat_succeed,
                    );
                    &&& r.0 == (StatusResponse {
                        succeed: true,
                        heartbeat_port: s2.heartbeat_port as u32,
                        service_port: s2.service_port as u32,
                        session_id: req.session_id,
                    })
                    &&& r.1 is None
                    &&& final(self).sessions@ == old(self).sessions@.insert(req.session_id, s2)
                }
            }),
    {
        let finished = req.service_succeed && req.heartbeat_succeed;
        if finished {
            match self.finish_session(req.session_id) {
                None => (
                    StatusResponse { succeed: false, heartbeat_port: 0, service_port: 0, session_id: 0 },
                    None,
                ),
                Some(s) => {
                    proof {
                        assert(self.sessions@ =~= old(self).sessions@.remove(req.session_id));
                    }
                    let svc = Service::new(
                        s.service_id,
                        String::new(),
                        s.host,
                        s.service_port,
                        s.heartbeat_port,
                    );
                    (
                        StatusResponse {
                            succeed: true,
                            heartbeat_port: 0,
                            service_port: 0,
                            session_id: 0,
                        },
                        Some(svc),
                    )
                },
            }
        } else {
            let stepped = if !req.service_succeed && !req.heartbeat_succeed {
                self.step_both(req.session_id)
            } else if !req.heartbeat_succeed {
                self.step_heartbeat(req.session_id)
            } else {
                self.step_service(req.session_id)
            };
            match stepped {
                None => (
                    StatusResponse { succeed: false, heartbeat_port: 0, service_port: 0, session_id: 0 },
                    None,
                ),
                Some(s2) => (
                    StatusResponse {
                        succeed: true,
                        heartbeat_port: s2.heartbeat_port as u32,
                        service_port: s2.service_port as u32,
                        session_id: req.session_id,
                    },
                    None,
                ),
            }
        }
    }

    /// Answers one `ReRegister` call: resume always succeeds at the
    /// protocol level, and converts directly into a service record at the
    /// claimed ports — the session table is not involved.
    pub fn re_register(&self, req: &ReRegisterRequest, host: HostAddr) -> (r: (
        ReRegisterResponse,
        Service,
    ))
        ensures
            r.0.succeed == true,
            r.0.msg@ == "succeed"@,
            r.1.sid == ServiceId(req.service_id),
            r.1.meta@ == Seq::<char>::empty(),
            r.1.host == host,
            r.1.service_port == req.service_port as u16,
            r.1.heartbeat_port == req.heartbeat_port as u16,
    {
        let rsp = ReRegisterResponse { succeed: true, msg: "succeed".to_owned() };
        let sp: u16 = req.service_port as u16;
        let hp: u16 = req.heartbeat_port as u16;
        let svc = Service::new(ServiceId(req.service_id), String::new(), host, sp, hp);
        (rsp, svc)
    }
}

/// An unknown session id leaves the whole table exactly as it was: no
/// session is created, stepped or removed, whatever the flags say.
pub proof fn lemma_unknown_session_unchanged(
    sessions: Map<u64, Session>,
    session_id: u64,
    service_ok: bool,
    heartbeat_ok: bool,
)
    requires
        !sessions.contains_key(session_id),
    ensures
        sessions.remove(session_id) == sessions,
{
    assert(sessions.remove(session_id) =~= sessions);
}

/// Stepping is one port per failed dimension per call: the reported
/// candidates move by exactly one, and only on the dimensions that
/// failed; the session's identity and host never change.
pub proof fn lemma_step_exactly_one(s: Session, service_ok: bool, heartbeat_ok: bool)
    requires
        !service_ok ==> s.service_port < u16::MAX,
        !heartbeat_ok ==> s.heartbeat_port < u16::MAX,
    ensures
        stepped_session(s, service_ok, heartbeat_ok).service_port == s.service_port + (
        if service_ok {
            0int
        } else {
            1int
        }),
        stepped_session(s, service_ok, heartbeat_ok).heartbeat_port == s.heartbeat_port + (
        if heartbeat_ok {
            0int
        } else {
            1int
        }),
        stepped_session(s, service_ok, heartbeat_ok).session_id == s.session_id,
        stepped_session(s, service_ok, heartbeat_ok).service_id == s.service_id,
        stepped_session(s, service_ok, heartbeat_ok).host == s.host,
{
}

} // verus!
