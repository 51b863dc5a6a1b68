//! The quantities that the pool counts, as mathematical values, and the rule
//! that decides whether a request fits.

use vstd::prelude::*;

verus! {

/// One of the three kinds of capacity, in the order in which a request is
/// checked against them.
pub enum Resource {
    Memory,
    Cpus,
    Gpus,
}

impl Resource {
    /// The name under which a shortage of this resource is reported.
    pub open spec fn name(self) -> Seq<char> {
        match self {
            Resource::Memory => "memory"@,
            Resource::Cpus => "cpus"@,
            Resource::Gpus => "gpus"@,
        }
    }
}

/// No two resources share a name, so a reported name points at one resource.
pub proof fn lemma_names_differ(a: Resource, b: Resource)
    ensures
        a.name() == b.name() ==> a == b,
{
    reveal_strlit("memory");
    reveal_strlit("cpus");
    reveal_strlit("gpus");
    if a.name() == b.name() {
        assert(a.name().len() == b.name().len());
        assert(a.name()[0] == b.name()[0]);
    }
}

/// An amount of each resource. This is the view of a pool's free capacity, of
/// a request and of what an allocation holds.
pub struct Amounts {
    pub mem: nat,
    pub cpus: nat,
    pub gpus: nat,
}

impl Amounts {
    /// Nothing of any resource.
    pub open spec fn zero() -> Amounts {
        Amounts { mem: 0, cpus: 0, gpus: 0 }
    }

    /// The amount of one resource.
    pub open spec fn of(self, r: Resource) -> nat {
        match r {
            Resource::Memory => self.mem,
            Resource::Cpus => self.cpus,
            Resource::Gpus => self.gpus,
        }
    }

    /// `self` holds at least `want` of every resource.
    pub open spec fn covers(self, want: Amounts) -> bool {
        &&& want.mem <= self.mem
        &&& want.cpus <= self.cpus
        &&& want.gpus <= self.gpus
    }

    /// Resource by resource sum.
    pub open spec fn plus(self, other: Amounts) -> Amounts {
        Amounts {
            mem: self.mem + other.mem,
            cpus: self.cpus + other.cpus,
            gpus: self.gpus + other.gpus,
        }
    }

    /// Resource by resource difference; meant for `self.covers(other)`.
    pub open spec fn minus(self, other: Amounts) -> Amounts
        recommends
            self.covers(other),
    {
        Amounts {
            mem: (self.mem - other.mem) as nat,
            cpus: (self.cpus - other.cpus) as nat,
            gpus: (self.gpus - other.gpus) as nat,
        }
    }

    /// Every amount can be held in a `u64` counter.
    pub open spec fn fits_u64(self) -> bool {
        &&& self.mem <= u64::MAX
        &&& self.cpus <= u64::MAX
        &&& self.gpus <= u64::MAX
    }
}

/// The first resource, in the order memory, CPUs, GPUs, of which `want` asks
/// for more than `available` holds; `None` when `available` covers `want`.
pub open spec fn first_shortfall(available: Amounts, want: Amounts) -> Option<Resource> {
    if available.mem < want.mem {
        Some(Resource::Memory)
    } else if available.cpus < want.cpus {
        Some(Resource::Cpus)
    } else if available.gpus < want.gpus {
        Some(Resource::Gpus)
    } else {
        None
    }
}

/// Fail-fast ordering: a lack of memory is reported whatever else is lacking,
/// a lack of CPUs only when memory suffices, a lack of GPUs only when both
/// suffice, and nothing is reported exactly when the request is covered.
pub proof fn lemma_shortfall_order(available: Amounts, want: Amounts)
    ensures
        available.mem < want.mem ==> first_shortfall(available, want) == Some(Resource::Memory),
        available.mem >= want.mem && available.cpus < want.cpus ==> first_shortfall(
            available,
            want,
        ) == Some(Resource::Cpus),
        available.mem >= want.mem && available.cpus >= want.cpus && available.gpus < want.gpus
            ==> first_shortfall(available, want) == Some(Resource::Gpus),
        first_shortfall(available, want) is None <==> available.covers(want),
        first_shortfall(available, want) matches Some(r) ==> available.of(r) < want.of(r),
{
}

/// What a caller asks for: so much memory, so many CPU shares, so many GPU
/// units.
#[derive(Clone, Copy, Debug, PartialEq, Eq)]
pub struct ResourceRequest {
    pub mem: u64,
    pub cpus: u64,
    pub gpus: u64,
}

impl View for ResourceRequest {
    type V = Amounts;

    open spec fn view(&self) -> Amounts {
        Amounts { mem: self.mem as nat, cpus: self.cpus as nat, gpus: self.gpus as nat }
    }
}

} // verus!
