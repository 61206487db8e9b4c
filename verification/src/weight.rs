//! Two-dimensional weight: reference time and proof size.
use vstd::prelude::*;

verus! {

/// A weight of computation, in reference time and in proof size.
#[derive(Clone, Copy, Debug, PartialEq, Eq, Structural)]
pub struct Weight {
    pub ref_time: u64,
    pub proof_size: u64,
}

/// Saturating addition on `u64`.
pub open spec fn sat_add_u64(a: u64, b: u64) -> u64 {
    if a + b > u64::MAX { u64::MAX } else { (a + b) as u64 }
}

impl Weight {
    /// Each component of `self` is at most the same component of `other`.
    pub open spec fn spec_all_lte(self, other: Weight) -> bool {
        self.ref_time <= other.ref_time && self.proof_size <= other.proof_size
    }

    /// Component-wise saturating sum.
    pub open spec fn spec_saturating_add(self, other: Weight) -> Weight {
        Weight {
            ref_time: sat_add_u64(self.ref_time, other.ref_time),
            proof_size: sat_add_u64(self.proof_size, other.proof_size),
        }
    }

    pub fn from_parts(ref_time: u64, proof_size: u64) -> (w: Weight)
        ensures
            w.ref_time == ref_time,
            w.proof_size == proof_size,
    {
        Weight { ref_time, proof_size }
    }

    pub fn zero() -> (w: Weight)
        ensures
            w.ref_time == 0,
            w.proof_size == 0,
    {
        Weight { ref_time: 0, proof_size: 0 }
    }

    #[verifier::when_used_as_spec(spec_all_lte)]
    pub fn all_lte(self, other: Weight) -> (r: bool)
        ensures
            r == self.spec_all_lte(other),
    {
        self.ref_time <= other.ref_time && self.proof_size <= other.proof_size
    }

    #[verifier::when_used_as_spec(spec_saturating_add)]
    pub fn saturating_add(self, other: Weight) -> (w: Weight)
        ensures
            w == self.spec_saturating_add(other),
    {
        Weight {
            ref_time: self.ref_time.saturating_add(other.ref_time),
            proof_size: self.proof_size.saturating_add(other.proof_size),
        }
    }
}

} // verus!
