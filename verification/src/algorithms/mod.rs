//! The value types shared by the capacity algorithms.

use vstd::prelude::*;
use crate::text::{decimal, to_decimal};

pub mod bucket;
pub mod capacity;
pub mod ledger;

verus! {

/// An opaque ID used for registration purposes.
#[derive(Debug, Copy, Clone, Hash, PartialEq, Eq, Structural, PartialOrd, Ord)]
pub struct Id(usize);

impl View for Id {
    type V = usize;

    /// The number that tells this id from every other.
    closed spec fn view(&self) -> usize {
        self.0
    }
}

impl Id {
    /// The id with the given number.
    pub(crate) fn numbered(number: usize) -> (id: Id)
        ensures
            id@ == number,
    {
        Id(number)
    }

    /// The number of this id.
    pub fn number(&self) -> (number: usize)
        ensures
            number == self@,
        opens_invariants none
        no_unwind
    {
        self.0
    }

    /// The number of this id, in decimal.
    pub fn to_string(&self) -> (s: String)
        ensures
            s@ == decimal(self@ as nat),
    {
        to_decimal(self.0)
    }

    /// Two ids with the same number are the same id.
    pub proof fn lemma_told_by_number(self, other: Id)
        ensures
            self@ == other@ <==> self == other,
    {
    }
}

/// What a [`Token`] stands for: a claim on `quantity` units of the capacity
/// of generation `generation`.
pub struct Claim {
    pub generation: nat,
    pub quantity: nat,
}

/// A Token represents an indexed quantity.
pub struct Token {
    index: usize,
    quant: usize,
}

impl View for Token {
    type V = Claim;

    closed spec fn view(&self) -> Claim {
        Claim { generation: self.index as nat, quantity: self.quant as nat }
    }
}

impl Token {
    /// Create a new token with the given index and quantity.
    pub(crate) fn new(index: usize, quant: usize) -> (t: Token)
        ensures
            t@.generation == index,
            t@.quantity == quant,
    {
        Token { index, quant }
    }

    /// The generation this token was granted in.
    pub fn generation(&self) -> (g: usize)
        ensures
            g == self@.generation,
    {
        self.index
    }

    /// Get this token's quantity.
    pub fn get(&self) -> (q: usize)
        ensures
            q == self@.quantity,
    {
        self.quant
    }

    /// Reduce this token's quantity to the given value.
    ///
    /// If the argument is greater than or equal to the current quantity,
    /// this will be a no-op.
    pub fn set(&mut self, q: usize)
        ensures
            final(self)@.generation == old(self)@.generation,
            final(self)@.quantity == if q < old(self)@.quantity {
                q as nat
            } else {
                old(self)@.quantity
            },
    {
        if q < self.quant {
            self.quant = q
        }
    }
}

} // verus!
