//! The runtime meaning of the generated method, in model form.
//!
//! The emitted method hashes `std::mem::discriminant(self)`: a value that
//! identifies the active variant and carries nothing of the fields. A value
//! of an enumeration is modelled here as the index of its active variant
//! together with a payload code standing for whatever the fields hold; the
//! generated method reads the index alone. An accumulator — the
//! caller-supplied hasher, started from some fixed state and run on the one
//! key the method feeds it — is modelled as a function from that key to the
//! final hash code.

use vstd::prelude::*;

verus! {

/// A value of an enumeration, reduced to what the generated method can
/// depend on: which variant is active, and a payload code standing for the
/// fields, which nothing here reads.
#[derive(Clone, Copy, PartialEq, Eq, Structural, Debug)]
pub struct Instance {
    pub variant: u64,
    pub payload: u64,
}

/// The key the generated method feeds to the accumulator: the variant tag
/// alone.
pub open spec fn hash_key(v: Instance) -> u64 {
    v.variant
}

/// Yields the tag of an instance, as the generated method obtains it:
/// equal for two instances exactly when they hold the same variant,
/// whatever their payloads.
pub fn variant_tag(v: &Instance) -> (t: u64)
    ensures
        t == hash_key(*v),
{
    v.variant
}

/// Two instances of the same variant hash alike: whatever their payloads,
/// the keys they feed to the accumulator are equal, so any accumulator
/// state gives them the same hash code.
pub proof fn lemma_same_variant_same_hash(a: Instance, b: Instance, accumulator: spec_fn(u64) -> u64)
    requires
        a.variant == b.variant,
    ensures
        hash_key(a) == hash_key(b),
        accumulator(hash_key(a)) == accumulator(hash_key(b)),
{
}

/// Two instances of different variants of the same enumeration feed the
/// accumulator different keys. The keys are distinct; whether the final
/// hash codes collide is the accumulator's affair, not this facility's.
pub proof fn lemma_distinct_variants_distinct_keys(a: Instance, b: Instance)
    requires
        a.variant != b.variant,
    ensures
        hash_key(a) != hash_key(b),
{
}

} // verus!
