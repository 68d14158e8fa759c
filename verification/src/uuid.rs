//! Identifiers that are unique per source and grow with every request.

use vstd::prelude::*;

verus! {

/// Hands out identifiers. Each source counts on its own, so two sources
/// never influence each other.
#[derive(Debug)]
pub struct UuidSource {
    issued: u128,
}

impl View for UuidSource {
    type V = nat;

    /// The number of identifiers this source has handed out so far.
    closed spec fn view(&self) -> nat {
        self.issued as nat
    }
}

impl UuidSource {
    /// A source that has not handed out any identifier yet.
    pub fn new() -> (source: UuidSource)
        ensures
            source@ == 0,
    {
        UuidSource { issued: 0 }
    }

    /// How many identifiers have been handed out; also the value of the
    /// most recent one, if there is one.
    pub fn issued(&self) -> (count: u128)
        ensures
            count == self@,
    {
        self.issued
    }
}

/// An identifier. Its value is at least 1.
#[derive(PartialEq, Eq, Structural, Hash, Debug)]
pub struct UUID(u128);

impl View for UUID {
    type V = nat;

    closed spec fn view(&self) -> nat {
        self.0 as nat
    }
}

impl UUID {
    /// Takes the next identifier from `source`: one more than the count of
    /// identifiers handed out before, so the first is 1 and every later one
    /// is larger than all earlier ones of the same source.
    pub fn new(source: &mut UuidSource) -> (id: UUID)
        requires
            old(source)@ < u128::MAX,
        ensures
            id@ == old(source)@ + 1,
            final(source)@ == old(source)@ + 1,
    {
        source.issued = source.issued + 1;
        UUID(source.issued)
    }

    /// The identifier as a number.
    pub fn value(&self) -> (value: u128)
        ensures
            value == self@,
    {
        self.0
    }
}

} // verus!
