//! The registry's bookkeeping around the hub: which service each hub
//! target stands for, so a failed heartbeat can be traced back to the
//! service that must be dropped. The channel loop and the callbacks live
//! in an I/O shell; this module owns the table and its rules.

use vstd::prelude::*;

use crate::Service;

verus! {

/// A monitored service together with the hub target id that probes it.
#[derive(Clone, Debug)]
pub struct ServiceDetail {
    pub service: Service,
    pub uuid: u64,
}

impl ServiceDetail {
    /// Ties a service to the hub target standing for it.
    pub fn new(service: Service, uuid: u64) -> (r: ServiceDetail)
        ensures
            r == (ServiceDetail { service, uuid }),
    {
        ServiceDetail { service, uuid }
    }
}

/// Whether two service records describe the same service.
pub open spec fn same_service(a: Service, b: Service) -> bool {
    a.sid == b.sid && a.meta@ == b.meta@ && a.host == b.host && a.service_port == b.service_port
        && a.heartbeat_port == b.heartbeat_port
}

/// The registry core: the monitored services, in the order they were
/// admitted, each keyed by its hub target id.
pub struct Registry {
    pub services: Vec<ServiceDetail>,
}

impl Registry {
    /// Every entry is keyed by a different target id.
    pub open spec fn wf(&self) -> bool {
        forall|i: int, j: int|
            0 <= i < j < self.services@.len() ==> #[trigger] self.services@[i].uuid != #[trigger] self.services@[j].uuid
    }

    /// A registry with nothing admitted yet.
    pub fn new() -> (r: Registry)
        ensures
            r.services@.len() == 0,
            r.wf(),
    {
        Registry { services: Vec::new() }
    }

    /// Whether some entry already carries this target id.
    pub fn contains_uuid(&self, uuid: u64) -> (r: bool)
        ensures
            r == exists|i: int|
                0 <= i < self.services@.len() && #[trigger] self.services@[i].uuid == uuid,
    {
        let mut i: usize = 0;
        while i < self.services.len()
            invariant
                i <= self.services@.len(),
                forall|j: int| 0 <= j < i ==> #[trigger] self.services@[j].uuid != uuid,
            decreases self.services@.len() - i,
        {
            if self.services[i].uuid == uuid {
                return true;
            }
            i = i + 1;
        }
        false
    }

    /// Whether a service equal to this one is already in the table — the
    /// sign of a double registration, which the caller logs.
    pub fn has_service(&self, service: &Service) -> (r: bool)
        ensures
            r == exists|i: int|
                0 <= i < self.services@.len() && same_service(
                    #[trigger] self.services@[i].service,
                    *service,
                ),
    {
        let mut i: usize = 0;
        while i < self.services.len()
            invariant
                i <= self.services@.len(),
                forall|j: int|
                    0 <= j < i ==> !same_service(#[trigger] self.services@[j].service, *service),
            decreases self.services@.len() - i,
        {
            if &self.services[i].service == service {
                return true;
            }
            i = i + 1;
        }
        false
    }

    /// Admits a service under the hub target id that now probes it.
    pub fn register_service(&mut self, service: Service, uuid: u64)
        requires
            old(self).wf(),
            !exists|i: int|
                0 <= i < old(self).services@.len() && #[trigger] old(
                    self,
                ).services@[i].uuid == uuid,
        ensures
            final(self).services@ == old(self).services@.push(
                ServiceDetail { service, uuid },
            ),
            final(self).wf(),
    {
        self.services.push(ServiceDetail { service, uuid });
    }

    /// Drops the service whose probe target failed, returning it so the
    /// caller can raise the dropped callback; an unknown id drops
    /// nothing.
    pub fn service_dropped(&mut self, uuid: u64) -> (r: Option<Service>)
        requires
            old(self).wf(),
        ensures
            final(self).wf(),
            match r {
                Some(svc) => exists|i: int|
                    {
                        &&& 0 <= i < old(self).services@.len()
                        &&& (#[trigger] old(self).services@[i]).uuid == uuid
                        &&& svc == old(self).services@[i].service
                        &&& final(self).services@ == old(self).services@.remove(i)
                    },
                None => final(self).services@ == old(self).services@ && !exists|i: int|
                    0 <= i < old(self).services@.len() && #[trigger] old(
                        self,
                    ).services@[i].uuid == uuid,
            },
    {
        let mut i: usize = 0;
        while i < self.services.len()
            invariant
                old(self).wf(),
                self.services@ == old(self).services@,
                i <= self.services@.len(),
                forall|j: int| 0 <= j < i ==> #[trigger] self.services@[j].uuid != uuid,
            decreases self.services@.len() - i,
        {
            if self.services[i].uuid == uuid {
                let ghost oldseq = self.services@;
                let ghost ii = i as int;
                let detail = self.services.remove(i);
                proof {
                    lemma_drop_removes_one(oldseq, ii);
                    assert forall|a: int, b: int|
                        0 <= a < b < self.services@.len() implies #[trigger] self.services@[a].uuid
                        != #[trigger] self.services@[b].uuid by {
                        let a0 = if a < ii {
                            a
                        } else {
                            a + 1
                        };
                        let b0 = if b < ii {
                            b
                        } else {
                            b + 1
                        };
                        assert(self.services@[a] == oldseq[a0]);
                        assert(self.services@[b] == oldseq[b0]);
                        assert(oldseq[a0].uuid != oldseq[b0].uuid);
                    }
                    assert((#[trigger] old(self).services@[ii]).uuid == uuid && detail.service
                        == old(self).services@[ii].service && self.services@ == old(
                        self,
                    ).services@.remove(ii));
                }
                return Some(detail.service);
            }
            i = i + 1;
        }
        None
    }

    /// Every service currently monitored, in admission order.
    pub fn get_all_services(&self) -> (r: Vec<Service>)
        ensures
            r@.len() == self.services@.len(),
            forall|i: int|
                0 <= i < r@.len() ==> #[trigger] r@[i] == self.services@[i].service,
    {
        let mut out: Vec<Service> = Vec::new();
        let mut i: usize = 0;
        while i < self.services.len()
            invariant
                i <= self.services@.len(),
                out@.len() == i,
                forall|j: int| 0 <= j < i ==> #[trigger] out@[j] == self.services@[j].service,
            decreases self.services@.len() - i,
        {
            let sd = &self.services[i];
            let copy = Service::new(
                sd.service.sid,
                sd.service.meta.clone(),
                sd.service.host,
                sd.service.service_port,
                sd.service.heartbeat_port,
            );
            out.push(copy);
            i = i + 1;
        }
        out
    }
}

/// Dropping a service removes exactly one entry — the one its target id
/// names — and leaves every other service monitored.
proof fn lemma_drop_removes_one(r_old: Seq<ServiceDetail>, i: int)
    requires
        0 <= i < r_old.len(),
    ensures
        r_old.remove(i).len() == r_old.len() - 1,
        forall|j: int| 0 <= j < i ==> #[trigger] r_old.remove(i)[j] == r_old[j],
        forall|j: int| i <= j < r_old.len() - 1 ==> #[trigger] r_old.remove(i)[j] == r_old[j + 1],
{
}

} // verus!
