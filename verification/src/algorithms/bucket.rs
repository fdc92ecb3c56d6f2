//! The bucket: a capacity record shared between threads.

use vstd::prelude::*;
use parking_lot::Mutex;
use std::sync::atomic::{AtomicUsize, Ordering};
use crate::algorithms::{Claim, Id, Token};
use crate::algorithms::capacity::{Capacity, Pool};
use crate::error::Error;
use crate::lock::{guarded, hold, held, pass_on};

verus! {

/// What can be said of a claim granted from a bucket with the given maximum
/// to a request with the given hint, whatever the bucket's record held: it
/// is for the full maximum (a bucket without parts), or for at least one
/// unit and no more than the hint (a hint of zero still yields one unit
/// while less than an even share remains).
pub open spec fn grantable(maximum: usize, hint: usize, claim: Claim) -> bool {
    claim.quantity == maximum || (1 <= claim.quantity && (hint > 0 ==> claim.quantity <= hint) && (
    hint == 0 ==> claim.quantity == 1))
}

/// [`grantable`] says no more and no less than the records allow: a claim
/// is grantable exactly if some record of its generation grants it.
pub proof fn lemma_grantable_is_exact(maximum: usize, hint: usize, claim: Claim)
    ensures
        grantable(maximum, hint, claim) <==> exists|pool: Pool|
            pool.generation == claim.generation && #[trigger] pool.grant(
                maximum as nat,
                hint as nat,
            ) == Some(claim),
{
    if grantable(maximum, hint, claim) {
        let pool = if claim.quantity == maximum {
            Pool { generation: claim.generation, remaining: 0, parts: 0 }
        } else if hint == 0 {
            Pool { generation: claim.generation, remaining: 1, parts: 2 }
        } else {
            Pool { generation: claim.generation, remaining: claim.quantity, parts: 1 }
        };
        assert(pool.grant(maximum as nat, hint as nat) == Some(claim));
    }
    if exists|pool: Pool|
        pool.generation == claim.generation && #[trigger] pool.grant(maximum as nat, hint as nat)
            == Some(claim) {
        let pool = choose|pool: Pool|
            pool.generation == claim.generation && #[trigger] pool.grant(
                maximum as nat,
                hint as nat,
            ) == Some(claim);
        assert(grantable(maximum, hint, claim));
    }
}

/// A bucket has a certain capacity which is made available as `Token`s
/// containing quantities equal to capacity divided by parts.
///
/// With every part added, future `get` calls will return tokens with a
/// quantity equal to capacity / (parts + 1).
///
/// While the available capacity can not be blocked by inactive parts, i.e.
/// those which do not call `get`, it requires more `get` calls to retrieve
/// all available capacity which slows down active parts.
///
/// The record is shared: between two calls any other holder of the bucket
/// may have changed it. The contracts here therefore state what holds of a
/// call whatever record it found; [`Capacity`] states what each call does
/// to the record it finds.
#[derive(Debug)]
pub struct Bucket {
    maximum: usize,  // maximum capacity
    idgen: AtomicUsize,  // id generator
    capacity: Mutex<Capacity>,
}

impl Bucket {
    /// The maximum capacity of this bucket.
    pub closed spec fn spec_maximum(&self) -> usize {
        self.maximum
    }

    /// The maximum capacity of this bucket.
    #[verifier::when_used_as_spec(spec_maximum)]
    pub fn maximum(&self) -> (m: usize)
        ensures
            m == self.maximum(),
    {
        self.maximum
    }

    /// Create a new bucket with the given maximum capacity.
    pub fn new(capacity: usize) -> (b: Bucket)
        ensures
            b.maximum() == capacity,
    {
        Bucket {
            maximum: capacity,
            idgen: AtomicUsize::new(1),
            capacity: guarded(Capacity::new(capacity)),
        }
    }

    /// The next unused id.
    fn fresh_id(&self) -> Id {
        Id::numbered(self.idgen.fetch_add(1, Ordering::Relaxed))
    }

    /// Get a `Token` which contains as quantity the number of items of
    /// the remaining capacity divided by parts.
    ///
    /// Under the lock this is [`Capacity::acquire`]. Whatever the record
    /// held, a token is [`grantable`], and the only failure is
    /// `NoCapacity`.
    pub fn get(&self, _id: Id, hint: usize) -> (r: Result<Token, Error>)
        ensures
            match r {
                Ok(t) => grantable(self.maximum(), hint, t@),
                Err(e) => e is NoCapacity,
            },
    {
        let mut lease = hold(&self.capacity);
        let cap = held(&mut lease);
        let shared = cap.parts() > 0;
        let r = cap.acquire(self.maximum, hint);
        if shared && r.is_ok() {
            pass_on(lease);
        }
        r
    }

    /// Give back the previously retrieved `Token` which increases available
    /// capacity. Tokens which have expired will not be considered.
    ///
    /// Under the lock this is [`Capacity::release`], made only where the
    /// credit fits the machine's range; a token whose credit does not fit
    /// is dropped and the record stays as it is.
    pub fn release(&self, t: Token) {
        let mut lease = hold(&self.capacity);
        let cap = held(&mut lease);
        if cap.accepts(&t) {
            cap.release(t);
        }
    }

    /// Reset the time index and make the maximum capacity available again.
    pub fn reset(&self, i: usize) {
        let mut lease = hold(&self.capacity);
        let cap = held(&mut lease);
        cap.reset(self.maximum, i);
    }

    /// Attempt to increase the number of parts by one.
    /// This can fail if it would result in more parts than the maximum capacity.
    ///
    /// Under the lock this is [`Capacity::add_part`]. The only failure is
    /// `NoCapacity`, and a bucket without capacity takes no part at all.
    pub fn add_part(&self) -> (r: Result<Id, Error>)
        ensures
            r matches Err(e) ==> e is NoCapacity,
            self.maximum() == 0 ==> r is Err,
    {
        let mut lease = hold(&self.capacity);
        let cap = held(&mut lease);
        match cap.add_part(self.maximum) {
            Ok(_) => Ok(self.fresh_id()),
            Err(e) => Err(e),
        }
    }

    /// Remove a previously added part again.
    pub fn remove_part(&self, _id: Id)
        opens_invariants none
        no_unwind
    {
        let mut lease = hold(&self.capacity);
        let cap = held(&mut lease);
        cap.remove_part();
    }
}

} // verus!
