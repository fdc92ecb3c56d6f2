//! The bookkeeping of one generation: a pool together with the claims that
//! were granted from it and not yet handed back, and what holds of it
//! under every run of requests and returns.

use vstd::prelude::*;
use crate::algorithms::Claim;
use crate::algorithms::capacity::Pool;

verus! {

/// The sum of the given quantities.
pub open spec fn total(quantities: Seq<nat>) -> nat
    decreases quantities.len(),
{
    if quantities.len() == 0 {
        0
    } else {
        total(quantities.drop_last()) + quantities.last()
    }
}

/// One event in the life of a generation.
pub enum Step {
    /// A request with the given hint.
    Acquire { hint: nat },
    /// The return of the outstanding claim at the given position.
    Release { which: nat },
}

/// A pool and the quantities of the claims outstanding against it, oldest
/// first.
pub struct Ledger {
    pub pool: Pool,
    pub outstanding: Seq<nat>,
}

impl Ledger {
    /// What remains in the pool and what is outstanding add up to the
    /// maximum.
    pub open spec fn balanced(self, maximum: nat) -> bool {
        self.pool.remaining + total(self.outstanding) == maximum
    }

    /// The ledger after one event. A request that is granted adds its
    /// claim to the outstanding ones; a return removes the claim it names
    /// and credits the pool. A request that is refused, and a return that
    /// names no outstanding claim, change nothing.
    pub open spec fn step(self, maximum: nat, step: Step) -> Ledger {
        match step {
            Step::Acquire { hint } => match self.pool.grant(maximum, hint) {
                Some(claim) => Ledger {
                    pool: self.pool.acquire(hint),
                    outstanding: self.outstanding.push(claim.quantity),
                },
                None => self,
            },
            Step::Release { which } => if which < self.outstanding.len() {
                Ledger {
                    pool: self.pool.release(
                        Claim {
                            generation: self.pool.generation,
                            quantity: self.outstanding[which as int],
                        },
                    ),
                    outstanding: self.outstanding.remove(which as int),
                }
            } else {
                self
            },
        }
    }

    /// The ledger after the given events, in order.
    pub open spec fn run(self, maximum: nat, steps: Seq<Step>) -> Ledger
        decreases steps.len(),
    {
        if steps.len() == 0 {
            self
        } else {
            self.run(maximum, steps.drop_last()).step(maximum, steps.last())
        }
    }
}

/// Appending a quantity adds it to the total.
pub proof fn lemma_total_push(quantities: Seq<nat>, quantity: nat)
    ensures
        total(quantities.push(quantity)) == total(quantities) + quantity,
{
    assert(quantities.push(quantity).drop_last() =~= quantities);
}

/// Removing a quantity takes it off the total.
pub proof fn lemma_total_remove(quantities: Seq<nat>, which: int)
    requires
        0 <= which < quantities.len(),
    ensures
        total(quantities.remove(which)) + quantities[which] == total(quantities),
    decreases quantities.len(),
{
    if which == quantities.len() - 1 {
        assert(quantities.remove(which) =~= quantities.drop_last());
    } else {
        lemma_total_remove(quantities.drop_last(), which);
        assert(quantities.remove(which).drop_last() =~= quantities.drop_last().remove(which));
        assert(quantities.remove(which).last() == quantities.last());
    }
}

/// One event keeps a balanced ledger balanced, and changes neither the
/// generation nor the number of parts, as long as the pool has parts.
pub proof fn lemma_step_conserves(ledger: Ledger, maximum: nat, step: Step)
    requires
        ledger.pool.parts > 0,
        ledger.balanced(maximum),
    ensures
        ledger.step(maximum, step).balanced(maximum),
        ledger.step(maximum, step).pool.parts == ledger.pool.parts,
        ledger.step(maximum, step).pool.generation == ledger.pool.generation,
{
    match step {
        Step::Acquire { hint } => {
            let even = ledger.pool.remaining / ledger.pool.parts;
            assert(even <= ledger.pool.remaining) by (nonlinear_arith)
                requires
                    even == ledger.pool.remaining / ledger.pool.parts,
                    ledger.pool.parts > 0,
            ;
            if ledger.pool.grant(maximum, hint) is Some {
                lemma_total_push(ledger.outstanding, ledger.pool.share(hint));
            }
        },
        Step::Release { which } => {
            if which < ledger.outstanding.len() {
                lemma_total_remove(ledger.outstanding, which as int);
            }
        },
    }
}

/// Conservation: in a pool with parts, whatever requests and returns occur
/// within one generation, what remains and what is outstanding always add
/// up to the maximum.
pub proof fn lemma_conservation(ledger: Ledger, maximum: nat, steps: Seq<Step>)
    requires
        ledger.pool.parts > 0,
        ledger.balanced(maximum),
    ensures
        ledger.run(maximum, steps).balanced(maximum),
        ledger.run(maximum, steps).pool.parts == ledger.pool.parts,
        ledger.run(maximum, steps).pool.generation == ledger.pool.generation,
    decreases steps.len(),
{
    if steps.len() > 0 {
        lemma_conservation(ledger, maximum, steps.drop_last());
        lemma_step_conserves(ledger.run(maximum, steps.drop_last()), maximum, steps.last());
    }
}

/// A bucket that has just been reset, with nothing outstanding, is
/// balanced.
pub proof fn lemma_reset_is_balanced(pool: Pool, maximum: nat, generation: nat)
    ensures
        (Ledger { pool: pool.reset(maximum, generation), outstanding: Seq::empty() }).balanced(
            maximum,
        ),
{
}

/// A balanced ledger keeps its pool within the maximum: no more remains
/// than the maximum, whatever is outstanding.
pub proof fn lemma_balanced_is_within(ledger: Ledger, maximum: nat)
    requires
        ledger.balanced(maximum),
        ledger.pool.parts <= maximum,
    ensures
        ledger.pool.within(maximum),
{
}

/// Requests, resets and changes of the number of parts keep a pool within
/// the maximum. So does the return of a claim, provided that what remains
/// and the claim together do not exceed the maximum, as is the case for
/// every claim outstanding in a balanced ledger.
pub proof fn lemma_within_is_kept(pool: Pool, maximum: nat, hint: nat, generation: nat, claim: Claim)
    requires
        pool.within(maximum),
    ensures
        pool.acquire(hint).within(maximum),
        pool.reset(maximum, generation).within(maximum),
        pool.has_room(maximum) ==> pool.add_part().within(maximum),
        pool.remove_part().within(maximum),
        pool.remaining + claim.quantity <= maximum ==> pool.release(claim).within(maximum),
{
}

/// A return is not idempotent: handing the same claim back twice credits
/// the pool twice.
pub proof fn lemma_release_twice_credits_twice(pool: Pool, claim: Claim)
    requires
        claim.generation == pool.generation,
    ensures
        pool.release(claim).release(claim).remaining == pool.remaining + 2 * claim.quantity,
        claim.quantity > 0 ==> pool.release(claim).release(claim) != pool.release(claim),
{
}

/// Generation isolation: a claim granted in one generation and handed back
/// after the pool was reset to another changes nothing, whatever happened
/// to the pool in between.
pub proof fn lemma_stale_release_is_ignored(
    granting: Pool,
    later: Pool,
    maximum: nat,
    hint: nat,
    generation: nat,
)
    requires
        granting.grant(maximum, hint) is Some,
        generation != granting.generation,
    ensures
        later.reset(maximum, generation).release(granting.grant(maximum, hint)->0) == later.reset(
            maximum,
            generation,
        ),
{
}

/// A request is granted no more than remains, and no more than its hint:
/// the first in every pool with parts, the second for every hint but zero.
pub proof fn lemma_grant_is_bounded(pool: Pool, maximum: nat, hint: nat)
    requires
        pool.parts > 0,
    ensures
        pool.grant(maximum, hint) matches Some(claim) ==> claim.quantity <= pool.remaining,
        hint > 0 ==> (pool.grant(maximum, hint) matches Some(claim) ==> claim.quantity <= hint),
        pool.acquire(hint).remaining + pool.share(hint) == pool.remaining,
{
    let even = pool.remaining / pool.parts;
    assert(even <= pool.remaining) by (nonlinear_arith)
        requires
            even == pool.remaining / pool.parts,
            pool.parts > 0,
    ;
}

/// A transfer is charged what it moved: when a request is granted, `moved`
/// units of the claim are used and the rest is handed back, the pool has
/// exactly `moved` units less than before the request.
pub proof fn lemma_transfer_charges_what_it_moved(pool: Pool, maximum: nat, hint: nat, moved: nat)
    requires
        pool.parts > 0,
        pool.grant(maximum, hint) matches Some(claim) && moved <= claim.quantity,
    ensures
        pool.acquire(hint).release(
            Claim {
                generation: pool.generation,
                quantity: (pool.grant(maximum, hint)->0.quantity - moved) as nat,
            },
        ).remaining + moved == pool.remaining,
{
    lemma_grant_is_bounded(pool, maximum, hint);
}

/// Freedom from starvation: while anything remains, every request with a
/// hint other than zero is granted at least one unit.
pub proof fn lemma_no_starvation(pool: Pool, maximum: nat, hint: nat)
    requires
        pool.within(maximum),
        pool.remaining > 0,
        hint > 0,
    ensures
        pool.grant(maximum, hint) matches Some(claim) && claim.quantity >= 1,
{
}

} // verus!
