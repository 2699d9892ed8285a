use std::hash::{DefaultHasher, Hasher};
use vstd::std_specs::hash::DefaultHasherAdditionalSpecFns;
use vstd::prelude::*;

verus! {

/// Flipping a flag in place.
pub trait BoolToggleExt {
    fn toggle(&mut self);
}

impl BoolToggleExt for bool {
    fn toggle(&mut self)
        ensures
            *final(self) == !*old(self),
    {
        *self = !*self;
    }
}

/// The hash that `hash_chunk` gives: what a fresh `DefaultHasher` reports
/// after being fed the slice as one write.
pub open spec fn chunk_hash(t: Seq<u8>) -> u64 {
    DefaultHasher::spec_finish(seq![t])
}

/// Takes the hash of a single byte slice and returns it.
///
/// A convenience to avoid creating a hasher only to discard it after one use.
pub fn hash_chunk(t: &[u8]) -> (h: u64)
    ensures
        h == chunk_hash(t@),
{
    let mut s = DefaultHasher::new();
    s.write(t);
    s.finish()
}

} // verus!
