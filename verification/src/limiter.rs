//! The limiter: a bucket bound to a clock and to the registry of the
//! callers that wait for its next tick.

use vstd::prelude::*;
use futures::task::Task;
use parking_lot::Mutex;
use std::sync::Arc;
use std::sync::atomic::{AtomicBool, AtomicUsize, Ordering};
use crate::algorithms::{Id, Token};
use crate::algorithms::bucket::{grantable, Bucket};
use crate::error::Error;
use crate::lock::{guarded, hold, held};
use crate::waiters::Waiters;

verus! {

/// A `Limiter` maintains rate-limiting invariants over a set
/// of `Limited` resources.
///
/// All clones of a limiter share one bucket, one registry, one clock and
/// one fault flag. Whoever owns the clock calls [`Limiter::tick`] once per
/// period, and [`Limiter::fail`] if the clock breaks.
#[derive(Clone, Debug)]
pub struct Limiter {
    bucket: Arc<Bucket>,
    tasks: Arc<Mutex<Waiters>>,
    error: Arc<AtomicBool>,
    clock: Arc<AtomicUsize>,
}

impl Limiter {
    /// The capacity that this limiter hands out per tick.
    pub closed spec fn maximum(&self) -> usize {
        self.bucket.maximum()
    }

    /// Create a new limiter which caps the transfer rate to the given
    /// maximum of bytes per tick. Its bucket is in generation zero, the
    /// first tick starts generation one, and nobody waits.
    pub fn new(max: usize) -> (limiter: Limiter)
        ensures
            limiter.maximum() == max,
    {
        Limiter {
            bucket: Arc::new(Bucket::new(max)),
            tasks: Arc::new(guarded(Waiters::new())),
            error: Arc::new(AtomicBool::new(false)),
            clock: Arc::new(AtomicUsize::new(1)),
        }
    }

    /// Whether the clock has failed.
    pub fn is_faulted(&self) -> bool {
        self.error.load(Ordering::Acquire)
    }

    /// The generation that the next tick starts; the one after it comes
    /// next. After the machine's largest number the count starts over.
    fn next_generation(&self) -> usize {
        self.clock.fetch_add(1, Ordering::Relaxed)
    }

    /// Record that the clock has failed. From now on every operation that
    /// needs the clock is refused with `TimerError`; nothing undoes this.
    pub fn fail(&self) {
        self.error.store(true, Ordering::Release)
    }

    /// The answer to a caller, given whether the clock has failed: a
    /// limiter whose clock has failed serves nobody.
    pub fn in_service(faulted: bool) -> (r: Result<(), Error>)
        ensures
            faulted ==> (r matches Err(e) && e is TimerError),
            !faulted ==> r is Ok,
    {
        if faulted {
            Err(Error::TimerError)
        } else {
            Ok(())
        }
    }

    /// One tick of the clock: the bucket starts its next generation with
    /// the full capacity, and every caller that waited is resumed and
    /// forgotten. The ids that were resumed are returned, none of them
    /// twice.
    pub fn tick(&self) -> (woken: Vec<Id>)
        ensures
            woken@.no_duplicates(),
    {
        let generation = self.next_generation();
        self.bucket.reset(generation);
        let mut lease = hold(&self.tasks);
        held(&mut lease).wake_all()
    }

    /// Ask for a token of at most `hint` units on behalf of `id`.
    ///
    /// Refused with `TimerError` once the clock has failed; otherwise this
    /// is [`Bucket::get`].
    pub fn get(&self, id: Id, hint: usize) -> (r: Result<Token, Error>)
        ensures
            match r {
                Ok(t) => grantable(self.maximum(), hint, t@),
                Err(e) => e is NoCapacity || e is TimerError,
            },
    {
        match Self::in_service(self.is_faulted()) {
            Err(e) => Err(e),
            Ok(_) => self.bucket.get(id, hint),
        }
    }

    /// Hand back what is left of a token. This is [`Bucket::release`].
    pub fn release(&self, t: Token) {
        self.bucket.release(t)
    }

    /// Record that the caller registered under `id` is suspended until the
    /// next tick, which resumes it through `task`. An earlier entry for
    /// the same id is replaced.
    ///
    /// Refused with `TimerError` once the clock has failed.
    pub fn enqueue(&self, id: Id, task: Task) -> (r: Result<(), Error>)
        ensures
            r matches Err(e) ==> e is TimerError,
    {
        match Self::in_service(self.is_faulted()) {
            Err(e) => Err(e),
            Ok(_) => {
                let mut lease = hold(&self.tasks);
                held(&mut lease).enqueue(id, task);
                Ok(())
            },
        }
    }

    /// Register one more part with the bucket.
    ///
    /// Refused with `TimerError` once the clock has failed; otherwise this
    /// is [`Bucket::add_part`].
    pub fn register(&self) -> (r: Result<Id, Error>)
        ensures
            r matches Err(e) ==> e is NoCapacity || e is TimerError,
            self.maximum() == 0 ==> r is Err,
    {
        match Self::in_service(self.is_faulted()) {
            Err(e) => Err(e),
            Ok(_) => self.bucket.add_part(),
        }
    }

    /// Forget the part registered under `id`: it no longer waits, and the
    /// bucket has one part less. This never fails.
    pub fn deregister(&self, id: Id)
        opens_invariants none
        no_unwind
    {
        {
            let mut lease = hold(&self.tasks);
            held(&mut lease).cancel(id);
        }
        self.bucket.remove_part(id)
    }
}

} // verus!
