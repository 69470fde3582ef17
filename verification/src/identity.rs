//! Identities of callers and credential owners.

use vstd::prelude::*;

verus! {

/// A 256-bit account identifier, as the host hands it over once it has
/// authenticated the caller. It is held as two 128-bit halves, most
/// significant first; the library only ever compares identities.
#[derive(Clone, Copy, Debug, PartialEq, Eq, Hash, Structural)]
pub struct Identity {
    pub hi: u128,
    pub lo: u128,
}

impl View for Identity {
    type V = Identity;

    /// An identity is a plain value: it is its own view.
    open spec fn view(&self) -> Identity {
        *self
    }
}

impl Identity {
    /// The identity with the given halves.
    pub fn new(hi: u128, lo: u128) -> (id: Identity)
        ensures
            id.hi == hi,
            id.lo == lo,
    {
        Identity { hi, lo }
    }
}

} // verus!
