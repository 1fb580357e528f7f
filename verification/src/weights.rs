//! Weights: the computation time and proof size that an operation costs.
use vstd::prelude::*;

verus! {

/// A two-dimensional weight: reference time and proof size.
#[derive(Clone, Copy, PartialEq, Eq, Structural, Debug)]
pub struct Weight {
    /// The weight of computational time used on the reference hardware.
    pub ref_time: u64,
    /// The weight of storage space used by the proof of validity.
    pub proof_size: u64,
}

impl Weight {
    /// The zero weight.
    pub open spec fn zero_spec() -> Weight {
        Weight { ref_time: 0, proof_size: 0 }
    }

    /// The zero weight.
    pub fn zero() -> (r: Weight)
        ensures
            r == Weight::zero_spec(),
    {
        Weight { ref_time: 0, proof_size: 0 }
    }

    /// A weight from its two parts.
    pub fn from_parts(ref_time: u64, proof_size: u64) -> (r: Weight)
        ensures
            r.ref_time == ref_time,
            r.proof_size == proof_size,
    {
        Weight { ref_time, proof_size }
    }

    /// The reference-time part.
    pub fn ref_time(&self) -> (r: u64)
        ensures
            r == self.ref_time,
    {
        self.ref_time
    }

    /// The proof-size part.
    pub fn proof_size(&self) -> (r: u64)
        ensures
            r == self.proof_size,
    {
        self.proof_size
    }
}


/// `sp_weights::constants::WEIGHT_REF_TIME_PER_SECOND`: the reference time
/// of one second.
#[verifier::external_body]
pub(crate) fn ref_time_per_second() -> (r: u64)
    ensures
        r == 1_000_000_000_000,
{
    sp_weights::constants::WEIGHT_REF_TIME_PER_SECOND
}

/// `sp_weights::constants::WEIGHT_REF_TIME_PER_MILLIS`: the reference time
/// of one millisecond.
#[verifier::external_body]
pub(crate) fn ref_time_per_millis() -> (r: u64)
    ensures
        r == 1_000_000_000,
{
    sp_weights::constants::WEIGHT_REF_TIME_PER_MILLIS
}

/// `RuntimeDbWeight { read, write }.reads(count)`: `count` reads at `read`
/// each, saturating, and no proof size.
#[verifier::external_body]
pub(crate) fn db_reads(read: u64, write: u64, count: u64) -> (r: Weight)
    ensures
        r.ref_time == crate::arithmetic::saturate_u64(read * count),
        r.proof_size == 0,
{
    let w = sp_weights::RuntimeDbWeight { read, write }.reads(count);
    Weight { ref_time: w.ref_time(), proof_size: w.proof_size() }
}

} // verus!
