//! Entities known by a 128-bit identifier.
use vstd::prelude::*;

verus! {

pub trait Identified {
    /// The identifier of the entity.
    spec fn key(&self) -> u128;

    fn id(&self) -> (r: u128)
        ensures
            r == self.key(),
    ;
}

/// The identifiers of a sequence of entities, in order.
pub open spec fn keys<T: Identified>(s: Seq<T>) -> Seq<u128> {
    s.map_values(|a: T| a.key())
}

} // verus!
