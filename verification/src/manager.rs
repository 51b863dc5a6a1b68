//! The pool of free capacity and the allocations drawn from it.

use crate::amounts::{first_shortfall, Amounts, ResourceRequest};
use crate::error::ResourceError;
use crate::lock::{guard_of_poisoned, lock_pool, locked_pool, new_lock};
use std::sync::{Arc, Mutex, MutexGuard};
use vstd::prelude::*;

verus! {

/// How much of each resource is free on this node.
///
/// The totals are not kept: they are what is free plus what the outstanding
/// allocations hold.
#[derive(Debug)]
pub struct ResourceManager {
    available_mem: u64,
    available_cpus: u64,
    available_gpus: u64,
}

/// A pool that many holders share. The lock that guards it is out of their
/// reach: the pool changes only through [`ResourceManager::try_allocate`] and
/// through the dropping of what that returned.
#[derive(Clone)]
pub struct SharedResourceManager {
    pool: Arc<Mutex<ResourceManager>>,
    capacity: Ghost<Amounts>,
}

/// Capacity that was taken out of a pool. It is given back to that pool when
/// the allocation is dropped, and in no other way; it cannot be copied.
pub struct ResourceAllocation {
    resource_manager: SharedResourceManager,
    mem: u64,
    cpus: u64,
    gpus: u64,
}

impl View for ResourceManager {
    type V = Amounts;

    /// The free capacity.
    closed spec fn view(&self) -> Amounts {
        Amounts {
            mem: self.available_mem as nat,
            cpus: self.available_cpus as nat,
            gpus: self.available_gpus as nat,
        }
    }
}

impl View for ResourceAllocation {
    type V = Amounts;

    /// What the allocation holds.
    closed spec fn view(&self) -> Amounts {
        Amounts { mem: self.mem as nat, cpus: self.cpus as nat, gpus: self.gpus as nat }
    }
}

/// Locks the pool. A lock that is marked as poisoned, because an earlier
/// holder panicked, is entered all the same: the counters change only in the
/// verified methods of [`ResourceManager`], none of which stops half way, so
/// the pool behind it is whole.
fn enter<'a>(pool: &'a Mutex<ResourceManager>) -> (guard: MutexGuard<'a, ResourceManager>)
    opens_invariants none
    no_unwind
{
    match lock_pool(pool) {
        Ok(guard) => guard,
        Err(poisoned) => guard_of_poisoned(poisoned),
    }
}

impl SharedResourceManager {
    /// The free capacity with which the pool was shared: the total from which
    /// its books ([`Ledger::opened`](crate::ledger::Ledger::opened)) start.
    pub closed spec fn capacity(&self) -> Amounts {
        self.capacity@
    }

    /// Puts `pool` behind a lock, to be shared by cloning.
    pub fn new(pool: ResourceManager) -> (shared: Self)
        ensures
            shared.capacity() == pool@,
    {
        let ghost capacity = pool@;
        SharedResourceManager { pool: Arc::new(new_lock(pool)), capacity: Ghost(capacity) }
    }

    /// What is free right now, as `(mem, cpus, gpus)`, read under the lock.
    /// Other holders may have changed the pool by the time the caller looks
    /// at the numbers, so nothing is promised about them.
    pub fn available(&self) -> (free: (u64, u64, u64)) {
        let mut guard = enter(&self.pool);
        let pool = locked_pool(&mut guard);
        (pool.available_mem, pool.available_cpus, pool.available_gpus)
    }
}

impl ResourceManager {
    /// A pool in which all of the node's capacity is free.
    pub fn new(total_mem: u64, total_cpus: u64, total_gpus: u64) -> (pool: Self)
        ensures
            pool@ == (Amounts {
                mem: total_mem as nat,
                cpus: total_cpus as nat,
                gpus: total_gpus as nat,
            }),
    {
        ResourceManager {
            available_mem: total_mem,
            available_cpus: total_cpus,
            available_gpus: total_gpus,
        }
    }

    /// Free memory.
    pub fn available_mem(&self) -> (mem: u64)
        ensures
            mem == self@.mem,
    {
        self.available_mem
    }

    /// Free CPU shares.
    pub fn available_cpus(&self) -> (cpus: u64)
        ensures
            cpus == self@.cpus,
    {
        self.available_cpus
    }

    /// Free GPU units.
    pub fn available_gpus(&self) -> (gpus: u64)
        ensures
            gpus == self@.gpus,
    {
        self.available_gpus
    }

    /// Checks the request against the free capacity, memory first, then CPUs,
    /// then GPUs, and stops at the first resource that falls short. Only when
    /// all three suffice is anything taken, and then all three at once.
    pub fn reserve(&mut self, request: &ResourceRequest) -> (res: Result<(), ResourceError>)
        ensures
            res is Ok <==> old(self)@.covers(request@),
            match first_shortfall(old(self)@, request@) {
                Some(r) => res matches Err(e) && e.names(r),
                None => res is Ok,
            },
            res is Ok ==> final(self)@ == old(self)@.minus(request@),
            res is Err ==> *final(self) == *old(self),
    {
        if self.available_mem < request.mem {
            return Err(ResourceError::NotEnoughResources("memory".to_owned()));
        }
        if self.available_cpus < request.cpus {
            return Err(ResourceError::NotEnoughResources("cpus".to_owned()));
        }
        if self.available_gpus < request.gpus {
            return Err(ResourceError::NotEnoughResources("gpus".to_owned()));
        }
        self.available_mem = self.available_mem - request.mem;
        self.available_cpus = self.available_cpus - request.cpus;
        self.available_gpus = self.available_gpus - request.gpus;
        Ok(())
    }

    /// Takes `request` out of the shared pool, or reports the first resource
    /// of which the pool holds too little and leaves the pool as it was.
    ///
    /// The pool is locked for the check and the deduction together. What it
    /// holds at that moment depends on the other holders of the pool, so the
    /// contract says what is true whatever it held; [`Self::reserve`] says what
    /// happens for each state of the pool.
    pub fn try_allocate(resource_manager: SharedResourceManager, request: &ResourceRequest) -> (res:
        Result<ResourceAllocation, ResourceError>)
        ensures
            match res {
                Ok(allocation) => allocation@ == request@ && allocation.pool()
                    == resource_manager,
                Err(e) => e.names_some_of(request@),
            },
            request@ == Amounts::zero() ==> res is Ok,
    {
        let outcome = {
            let mut guard = enter(&resource_manager.pool);
            let pool = locked_pool(&mut guard);
            pool.reserve(request)
        };
        match outcome {
            Ok(()) => Ok(
                ResourceAllocation {
                    resource_manager,
                    mem: request.mem,
                    cpus: request.cpus,
                    gpus: request.gpus,
                },
            ),
            Err(e) => Err(e),
        }
    }

    /// The counters can take back what `allocation` holds.
    pub(crate) fn has_room_for(&self, allocation: &ResourceAllocation) -> (room: bool)
        ensures
            room == self@.plus(allocation@).fits_u64(),
        opens_invariants none
        no_unwind
    {
        allocation.mem <= u64::MAX - self.available_mem && allocation.cpus <= u64::MAX
            - self.available_cpus && allocation.gpus <= u64::MAX - self.available_gpus
    }

    /// Gives back what `allocation` holds.
    pub(crate) fn free(&mut self, allocation: &ResourceAllocation)
        requires
            old(self)@.plus(allocation@).fits_u64(),
        ensures
            final(self)@ == old(self)@.plus(allocation@),
        opens_invariants none
        no_unwind
    {
        self.available_mem = self.available_mem + allocation.mem;
        self.available_cpus = self.available_cpus + allocation.cpus;
        self.available_gpus = self.available_gpus + allocation.gpus;
    }

    /// The release of `allocation` into this pool: the free capacity grows by
    /// exactly what the allocation holds. A pool whose counters could not
    /// hold the sum stays as it is. Only the allocation's `drop` calls this,
    /// so that nothing is given back twice.
    pub(crate) fn release(&mut self, allocation: &ResourceAllocation)
        ensures
            final(self)@ == (if old(self)@.plus(allocation@).fits_u64() {
                old(self)@.plus(allocation@)
            } else {
                old(self)@
            }),
        opens_invariants none
        no_unwind
    {
        if self.has_room_for(allocation) {
            self.free(allocation);
        }
    }
}

impl ResourceAllocation {
    /// The pool that the allocation was drawn from and will return to.
    pub closed spec fn pool(&self) -> SharedResourceManager {
        self.resource_manager
    }

    /// Memory held.
    pub fn mem(&self) -> (mem: u64)
        ensures
            mem == self@.mem,
    {
        self.mem
    }

    /// CPU shares held.
    pub fn cpus(&self) -> (cpus: u64)
        ensures
            cpus == self@.cpus,
    {
        self.cpus
    }

    /// GPU units held.
    pub fn gpus(&self) -> (gpus: u64)
        ensures
            gpus == self@.gpus,
    {
        self.gpus
    }
}

impl Drop for ResourceAllocation {
    /// Returns what the allocation holds to its pool, under the pool's lock,
    /// as [`ResourceManager::release`] says. The allocation itself still
    /// names the same amounts and the same pool.
    fn drop(&mut self)
        ensures
            final(self)@ == old(self)@,
            final(self).pool() == old(self).pool(),
        opens_invariants none
        no_unwind
    {
        let mut guard = enter(&self.resource_manager.pool);
        let pool = locked_pool(&mut guard);
        pool.release(self);
    }
}

} // verus!
