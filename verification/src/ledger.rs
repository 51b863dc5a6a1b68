//! The books of a pool: what is free and what each outstanding allocation
//! holds, and the laws that every history of reserving and releasing obeys.
//!
//! A [`Ledger`] steps exactly as the pool does: reserving follows
//! [`Amounts::covers`] and [`Amounts::minus`], the rule of
//! [`ResourceManager::reserve`](crate::manager::ResourceManager::reserve), and
//! releasing follows [`Amounts::plus`], the rule by which a dropped
//! allocation is released into its pool.

use crate::amounts::Amounts;
use vstd::prelude::*;

verus! {

/// The free capacity of a pool together with the grants not yet returned,
/// oldest first.
pub struct Ledger {
    pub available: Amounts,
    pub outstanding: Seq<Amounts>,
}

/// One thing that happens to a pool.
pub enum Step {
    /// A request for these amounts arrives.
    Reserve(Amounts),
    /// The outstanding grant at this position is dropped.
    Release(int),
}

/// The sum of a list of grants.
pub open spec fn held(grants: Seq<Amounts>) -> Amounts
    decreases grants.len(),
{
    if grants.len() == 0 {
        Amounts::zero()
    } else {
        held(grants.drop_last()).plus(grants.last())
    }
}

impl Ledger {
    /// The books of a fresh pool: all of `total` is free, nothing is out.
    pub open spec fn opened(total: Amounts) -> Ledger {
        Ledger { available: total, outstanding: Seq::empty() }
    }

    /// A request is granted when the free capacity covers it, and then joins
    /// the outstanding grants; otherwise the books stay as they are.
    pub open spec fn reserve(self, want: Amounts) -> Ledger {
        if self.available.covers(want) {
            Ledger {
                available: self.available.minus(want),
                outstanding: self.outstanding.push(want),
            }
        } else {
            self
        }
    }

    /// The grant at position `i` leaves the books and its amounts are free
    /// again. A position at which no grant stands changes nothing.
    pub open spec fn release(self, i: int) -> Ledger {
        if 0 <= i < self.outstanding.len() {
            Ledger {
                available: self.available.plus(self.outstanding[i]),
                outstanding: self.outstanding.remove(i),
            }
        } else {
            self
        }
    }

    /// The books after one step.
    pub open spec fn step(self, s: Step) -> Ledger {
        match s {
            Step::Reserve(want) => self.reserve(want),
            Step::Release(i) => self.release(i),
        }
    }

    /// The books after a history of steps, first to last.
    pub open spec fn run(self, steps: Seq<Step>) -> Ledger
        decreases steps.len(),
    {
        if steps.len() == 0 {
            self
        } else {
            self.run(steps.drop_last()).step(steps.last())
        }
    }

    /// What is free and what is out add up to `total`.
    pub open spec fn conserves(self, total: Amounts) -> bool {
        self.available.plus(held(self.outstanding)) == total
    }
}

/// Adding a grant at the end adds its amounts to the sum.
pub proof fn lemma_held_push(grants: Seq<Amounts>, grant: Amounts)
    ensures
        held(grants.push(grant)) == held(grants).plus(grant),
{
    assert(grants.push(grant).drop_last() =~= grants);
}

/// Taking a grant out takes its amounts out of the sum.
pub proof fn lemma_held_remove(grants: Seq<Amounts>, i: int)
    requires
        0 <= i < grants.len(),
    ensures
        held(grants.remove(i)).plus(grants[i]) == held(grants),
    decreases grants.len(),
{
    if i == grants.len() - 1 {
        assert(grants.remove(i) =~= grants.drop_last());
    } else {
        lemma_held_remove(grants.drop_last(), i);
        assert(grants.remove(i).drop_last() =~= grants.drop_last().remove(i));
        assert(grants.remove(i).last() == grants.last());
    }
}

/// A sum of grants is at least each of them.
pub proof fn lemma_held_covers_each(grants: Seq<Amounts>, i: int)
    requires
        0 <= i < grants.len(),
    ensures
        held(grants).covers(grants[i]),
{
    lemma_held_remove(grants, i);
}

/// Conservation across one step: books that are balanced stay balanced when
/// a request is granted or refused and when an outstanding grant is
/// released, whatever state they were in.
pub proof fn lemma_step_conserves(ledger: Ledger, total: Amounts, s: Step)
    requires
        ledger.conserves(total),
    ensures
        ledger.step(s).conserves(total),
{
    match s {
        Step::Reserve(want) => {
            if ledger.available.covers(want) {
                lemma_held_push(ledger.outstanding, want);
            }
        },
        Step::Release(i) => {
            if 0 <= i < ledger.outstanding.len() {
                lemma_held_remove(ledger.outstanding, i);
            }
        },
    }
}

/// Conservation: after any history of reserving and releasing on a pool that
/// started with `total`, and at every point of that history, what is free
/// plus what the outstanding allocations hold is `total`, resource by
/// resource.
pub proof fn lemma_conservation(total: Amounts, steps: Seq<Step>)
    ensures
        forall|k: int|
            0 <= k <= steps.len() ==> #[trigger] Ledger::opened(total).run(
                steps.take(k),
            ).conserves(total),
{
    assert forall|k: int| 0 <= k <= steps.len() implies #[trigger] Ledger::opened(total).run(
        steps.take(k),
    ).conserves(total) by {
        lemma_run_conserves(total, steps.take(k));
    }
}

/// The books are balanced at the end of a history.
pub proof fn lemma_run_conserves(total: Amounts, steps: Seq<Step>)
    ensures
        Ledger::opened(total).run(steps).conserves(total),
    decreases steps.len(),
{
    if steps.len() > 0 {
        lemma_run_conserves(total, steps.drop_last());
        lemma_step_conserves(Ledger::opened(total).run(steps.drop_last()), total, steps.last());
    }
}

/// No over-commitment: at no point of a history is more free than the pool
/// started with, and no outstanding allocation, nor all of them together,
/// holds more than the pool started with.
pub proof fn lemma_never_over_committed(total: Amounts, steps: Seq<Step>)
    ensures
        total.covers(Ledger::opened(total).run(steps).available),
        total.covers(held(Ledger::opened(total).run(steps).outstanding)),
{
    lemma_run_conserves(total, steps);
}

/// Release cannot fail: while the books are balanced on totals that fit the
/// counters, giving back any outstanding allocation stays within the totals.
/// The counters can therefore hold the sum, so that
/// [`ResourceManager::release`](crate::manager::ResourceManager::release)
/// adds exactly what the allocation holds, and the books stay balanced.
pub proof fn lemma_release_fits(ledger: Ledger, total: Amounts, i: int)
    requires
        ledger.conserves(total),
        total.fits_u64(),
        0 <= i < ledger.outstanding.len(),
    ensures
        total.covers(ledger.available.plus(ledger.outstanding[i])),
        ledger.available.plus(ledger.outstanding[i]).fits_u64(),
        ledger.release(i).available == ledger.available.plus(ledger.outstanding[i]),
        ledger.release(i).conserves(total),
{
    lemma_held_covers_each(ledger.outstanding, i);
    lemma_step_conserves(ledger, total, Step::Release(i));
}

/// Exactly-once release: dropping an allocation right after it was granted
/// puts the books back as they were, and the grant is then no longer
/// outstanding, so it cannot be returned again.
pub proof fn lemma_reserve_then_release(ledger: Ledger, want: Amounts)
    requires
        ledger.available.covers(want),
    ensures
        ledger.reserve(want).release(ledger.outstanding.len() as int) == ledger,
{
    let after = ledger.reserve(want).release(ledger.outstanding.len() as int);
    assert(after.outstanding =~= ledger.outstanding);
}

/// Once every allocation has been dropped, all that the pool started with is
/// free again: nothing leaked and nothing came back twice.
pub proof fn lemma_all_returned(total: Amounts, steps: Seq<Step>)
    requires
        Ledger::opened(total).run(steps).outstanding.len() == 0,
    ensures
        Ledger::opened(total).run(steps).available == total,
{
    lemma_run_conserves(total, steps);
}

} // verus!
