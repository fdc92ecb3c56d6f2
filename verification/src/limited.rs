//! A rate-limited resource: the decisions around one bounded transfer.
//!
//! The resource itself is only carried along. Whoever performs the
//! transfer asks [`Limited::request`] before it, moves at most as many bytes
//! as it was granted, and reports what was moved to [`Limited::settle`].
//! When it is told to wait it hands its task to [`Limited::suspend`] and
//! tells its own caller to try again later.

use vstd::prelude::*;
use futures::task::Task;
use crate::algorithms::{Id, Token};
use crate::algorithms::bucket::grantable;
use crate::error::Error;
use crate::limiter::Limiter;

verus! {

/// What a caller that wants to transfer bytes is told.
pub enum Admission {
    /// Go ahead with at most `bound` bytes, then settle the token.
    Granted { token: Token, bound: usize },
    /// Nothing is left in this generation: suspend until the next tick and
    /// try again.
    Throttled,
    /// The limiter is out of service.
    Failed(Error),
}

/// What a request for `len` bytes is told, given the limiter's answer
/// to it. A token allows as many bytes as it holds, but no more than
/// were asked for; `NoCapacity` means waiting; every other error is
/// passed on.
pub fn plan(len: usize, answer: Result<Token, Error>) -> (admission: Admission)
    ensures
        match answer {
            Ok(t) => admission == (Admission::Granted {
                token: t,
                bound: if len <= t@.quantity {
                    len
                } else {
                    t@.quantity as usize
                },
            }),
            Err(Error::NoCapacity) => admission is Throttled,
            Err(e) => admission == Admission::Failed(e),
        },
{
    match answer {
        Ok(token) => {
            let n = token.get();
            let bound = if len <= n {
                len
            } else {
                n
            };
            Admission::Granted { token, bound }
        },
        Err(Error::NoCapacity) => Admission::Throttled,
        Err(e) => Admission::Failed(e),
    }
}

/// What is left of a token after `transferred` of its units were used.
pub fn unused(token: Token, transferred: usize) -> (rest: Token)
    requires
        transferred <= token@.quantity,
    ensures
        rest@.generation == token@.generation,
        rest@.quantity == token@.quantity - transferred,
{
    let mut rest = token;
    let n = rest.get();
    rest.set(n - transferred);
    rest
}

/// A rate-limited resource.
#[derive(Debug)]
pub struct Limited<T> {
    id: Id,
    io: T,
    lim: Limiter,
}

impl<T> Limited<T> {
    /// The id under which this resource is registered.
    pub closed spec fn spec_id(&self) -> Id {
        self.id
    }

    /// The limiter that this resource is registered with.
    pub closed spec fn limiter(&self) -> Limiter {
        self.lim
    }

    /// The resource that is carried along.
    pub closed spec fn resource(&self) -> T {
        self.io
    }

    /// Register `io` with the limiter. Where the limiter refuses the
    /// registration, so does this, with the same error.
    pub fn new(io: T, lim: Limiter) -> (r: Result<Limited<T>, Error>)
        ensures
            match r {
                Ok(limited) => limited.limiter() == lim && limited.resource() == io,
                Err(e) => e is NoCapacity || e is TimerError,
            },
            lim.maximum() == 0 ==> r is Err,
    {
        match lim.register() {
            Ok(id) => Ok(Limited { id, io, lim }),
            Err(e) => Err(e),
        }
    }

    /// The id under which this resource is registered.
    #[verifier::when_used_as_spec(spec_id)]
    pub fn id(&self) -> (id: Id)
        ensures
            id == self.id(),
    {
        self.id
    }

    /// The resource, to read from.
    pub fn get_ref(&self) -> (io: &T)
        ensures
            *io == self.resource(),
    {
        &self.io
    }

    /// The resource, to transfer with. The registration stays as it is.
    pub fn get_mut(&mut self) -> (io: &mut T)
        ensures
            *io == old(self).resource(),
            final(self).resource() == *final(io),
            final(self).id() == old(self).id(),
            final(self).limiter() == old(self).limiter(),
    {
        &mut self.io
    }

    /// Ask the limiter for leave to transfer `len` bytes.
    ///
    /// This is [`plan`] applied to the limiter's answer. Whatever the
    /// limiter's state: the token of a grant is one that the limiter's
    /// bucket can grant to a hint of `len`, the grant allows the smaller of
    /// `len` and what the token holds, and the only failure is
    /// `TimerError`.
    pub fn request(&self, len: usize) -> (admission: Admission)
        ensures
            admission matches Admission::Granted { token, bound } ==> {
                &&& grantable(self.limiter().maximum(), len, token@)
                &&& bound == if len <= token@.quantity {
                    len as nat
                } else {
                    token@.quantity
                }
            },
            admission matches Admission::Failed(e) ==> e is TimerError,
    {
        plan(len, self.lim.get(self.id, len))
    }

    /// Enter the caller among those that the next tick resumes, through
    /// `task`. To be called when [`Limited::request`] said `Throttled`.
    pub fn suspend(&self, task: Task) -> (r: Result<(), Error>)
        ensures
            r matches Err(e) ==> e is TimerError,
    {
        self.lim.enqueue(self.id, task)
    }

    /// Close a transfer that moved `transferred` bytes under `token`: what
    /// the transfer did not use goes back to the bucket. Returns the
    /// number of bytes moved.
    ///
    /// A transfer that failed is not settled: its token is dropped, and
    /// nothing goes back.
    pub fn settle(&self, token: Token, transferred: usize) -> (moved: usize)
        requires
            transferred <= token@.quantity,
        ensures
            moved == transferred,
    {
        self.lim.release(unused(token, transferred));
        transferred
    }
}

impl<T> Drop for Limited<T> {
    fn drop(&mut self)
        opens_invariants none
        no_unwind
    {
        self.lim.deregister(self.id)
    }
}

} // verus!
