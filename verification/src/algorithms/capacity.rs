//! The capacity record of a bucket and the rules by which it changes.
//!
//! [`Pool`] is the mathematical model; [`Capacity`] is the machine value
//! that a bucket keeps behind its lock. Every operation of `Capacity` is
//! specified as the corresponding function of `Pool`.

use vstd::prelude::*;
use crate::algorithms::{Claim, Token};
use crate::error::Error;

verus! {

/// The state of a capacity pool: the current generation, the capacity not
/// yet handed out in it, and the number of parts that share it.
pub struct Pool {
    pub generation: nat,
    pub remaining: nat,
    pub parts: nat,
}

impl Pool {
    /// The pool of a new bucket.
    pub open spec fn fresh(maximum: nat) -> Pool {
        Pool { generation: 0, remaining: maximum, parts: 0 }
    }

    /// Neither the remaining capacity nor the number of parts exceeds the
    /// maximum.
    pub open spec fn within(self, maximum: nat) -> bool {
        self.remaining <= maximum && self.parts <= maximum
    }

    /// What one request may take from a shared pool: an even share of what
    /// remains, capped by the hint, but never less than one unit while
    /// anything remains.
    pub open spec fn share(self, hint: nat) -> nat
        recommends
            self.parts > 0,
    {
        let even = self.remaining / self.parts;
        if even == 0 && self.remaining > 0 {
            1
        } else if even <= hint {
            even
        } else {
            hint
        }
    }

    /// The claim that a request with the given hint is granted, if any.
    /// A pool without parts grants the full maximum.
    pub open spec fn grant(self, maximum: nat, hint: nat) -> Option<Claim> {
        if self.parts == 0 {
            Some(Claim { generation: self.generation, quantity: maximum })
        } else if self.share(hint) == 0 {
            None
        } else {
            Some(Claim { generation: self.generation, quantity: self.share(hint) })
        }
    }

    /// The pool after a request with the given hint. A pool without parts
    /// is not charged.
    pub open spec fn acquire(self, hint: nat) -> Pool {
        if self.parts == 0 {
            self
        } else {
            Pool { remaining: (self.remaining - self.share(hint)) as nat, ..self }
        }
    }

    /// The pool after a claim is handed back: credited if the claim is of
    /// the current generation, unchanged if it is stale.
    pub open spec fn release(self, claim: Claim) -> Pool {
        if claim.generation == self.generation {
            Pool { remaining: self.remaining + claim.quantity, ..self }
        } else {
            self
        }
    }

    /// The pool at the start of the given generation.
    pub open spec fn reset(self, maximum: nat, generation: nat) -> Pool {
        Pool { generation, remaining: maximum, ..self }
    }

    /// Whether another part can be added.
    pub open spec fn has_room(self, maximum: nat) -> bool {
        self.parts < maximum
    }

    /// The pool with one more part.
    pub open spec fn add_part(self) -> Pool {
        Pool { parts: self.parts + 1, ..self }
    }

    /// The pool with one part less, if it had any.
    pub open spec fn remove_part(self) -> Pool {
        if self.parts > 0 {
            Pool { parts: (self.parts - 1) as nat, ..self }
        } else {
            self
        }
    }
}

/// The capacity record of a bucket.
#[derive(Debug, Clone, Copy)]
pub struct Capacity {
    index: usize,  // time index
    value: usize,  // capacity value
    parts: usize,  // parts over which to spread the available capacity
}

impl View for Capacity {
    type V = Pool;

    closed spec fn view(&self) -> Pool {
        Pool {
            generation: self.index as nat,
            remaining: self.value as nat,
            parts: self.parts as nat,
        }
    }
}

impl Capacity {
    /// The record of a new bucket with the given maximum capacity.
    pub fn new(maximum: usize) -> (c: Capacity)
        ensures
            c@ == Pool::fresh(maximum as nat),
    {
        Capacity { index: 0, value: maximum, parts: 0 }
    }

    /// The current generation.
    pub fn generation(&self) -> (g: usize)
        ensures
            g == self@.generation,
    {
        self.index
    }

    /// The capacity not yet handed out in the current generation.
    pub fn remaining(&self) -> (n: usize)
        ensures
            n == self@.remaining,
    {
        self.value
    }

    /// The number of parts that share the capacity.
    pub fn parts(&self) -> (n: usize)
        ensures
            n == self@.parts,
    {
        self.parts
    }

    /// Take a token for at most `hint` units out of the pool.
    ///
    /// Without parts the full `maximum` is granted and nothing is charged.
    /// Otherwise the token holds the even share of what remains, capped by
    /// `hint`, and at least one unit while anything remains; the pool is
    /// charged with it. Where that quantity is zero, nothing is granted.
    pub fn acquire(&mut self, maximum: usize, hint: usize) -> (r: Result<Token, Error>)
        ensures
            final(self)@ == old(self)@.acquire(hint as nat),
            match r {
                Ok(t) => old(self)@.grant(maximum as nat, hint as nat) == Some(t@),
                Err(e) => e is NoCapacity && old(self)@.grant(maximum as nat, hint as nat) is None,
            },
            // from a pool with parts, never more than remains, nor than a hint
            // other than zero
            old(self)@.parts > 0 ==> (r matches Ok(t) ==> 1 <= t@.quantity <= old(self)@.remaining),
            old(self)@.parts > 0 && hint > 0 ==> (r matches Ok(t) ==> t@.quantity <= hint),
            // while anything remains, a hint other than zero gets at least one
            // unit
            old(self)@.within(maximum as nat) && old(self)@.remaining > 0 && hint > 0 ==> (r matches Ok(
                t,
            ) && t@.quantity >= 1),
    {
        // no parts => always at full capacity
        if self.parts == 0 {
            return Ok(Token::new(self.index, maximum));
        }
        let even: usize = self.value / self.parts;
        assert(even <= self.value) by (nonlinear_arith)
            requires
                even == self.value as int / self.parts as int,
                self.parts > 0,
        ;
        let quant: usize = if even == 0 && self.value > 0 {
            1
        } else if even <= hint {
            even
        } else {
            hint
        };
        if quant == 0 {
            return Err(Error::NoCapacity);
        }
        self.value = self.value - quant;
        Ok(Token::new(self.index, quant))
    }

    /// Whether crediting the token keeps the remaining capacity within the
    /// machine's range. A stale token is always accepted: it credits
    /// nothing.
    pub fn accepts(&self, t: &Token) -> (b: bool)
        ensures
            b == (t@.generation == self@.generation ==> self@.remaining + t@.quantity
                <= usize::MAX),
    {
        t.generation() != self.index || t.get() <= usize::MAX - self.value
    }

    /// Give back a previously retrieved token, which increases the
    /// remaining capacity. A token of another generation has expired and
    /// changes nothing.
    pub fn release(&mut self, t: Token)
        requires
            t@.generation == old(self)@.generation ==> old(self)@.remaining + t@.quantity
                <= usize::MAX,
        ensures
            final(self)@ == old(self)@.release(t@),
    {
        if t.generation() == self.index {
            self.value = self.value + t.get();
        }
    }

    /// Start the given generation with the maximum capacity available
    /// again.
    pub fn reset(&mut self, maximum: usize, generation: usize)
        ensures
            final(self)@ == old(self)@.reset(maximum as nat, generation as nat),
    {
        self.index = generation;
        self.value = maximum;
    }

    /// Attempt to increase the number of parts by one. This fails, and
    /// changes nothing, if there would be more parts than the maximum
    /// capacity.
    pub fn add_part(&mut self, maximum: usize) -> (r: Result<(), Error>)
        ensures
            match r {
                Ok(_) => old(self)@.has_room(maximum as nat) && final(self)@ == old(self)@.add_part(),
                Err(e) => e is NoCapacity && !old(self)@.has_room(maximum as nat) && final(self)@
                    == old(self)@,
            },
    {
        if self.parts >= maximum {
            return Err(Error::NoCapacity);
        }
        self.parts = self.parts + 1;
        Ok(())
    }

    /// Remove a previously added part again. Without parts this changes
    /// nothing.
    pub fn remove_part(&mut self)
        ensures
            final(self)@ == old(self)@.remove_part(),
        opens_invariants none
        no_unwind
    {
        if self.parts > 0 {
            self.parts = self.parts - 1;
        }
    }
}

} // verus!
