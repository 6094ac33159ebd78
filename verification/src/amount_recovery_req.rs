//! One request of amount recovery.

use vstd::prelude::*;
use crate::ffi::BlsctAmountRecoveryReq;
use crate::point::Point;
use crate::range_proof::RangeProof;

verus! {

/// A range proof and the nonce under which its amount is looked for. The
/// request owns both.
#[derive(Debug)]
pub struct AmountRecoveryReq {
    pub range_proof: RangeProof,
    pub nonce: Point,
}

impl AmountRecoveryReq {
    pub fn new(range_proof: RangeProof, nonce: Point) -> (req: Self)
        ensures
            req.range_proof == range_proof,
            req.nonce == nonce,
    {
        AmountRecoveryReq { range_proof, nonce }
    }

    /// What the native library is given for the request: the proof, the
    /// size of the proof, and the nonce.
    pub open spec fn spec_native(&self) -> BlsctAmountRecoveryReq {
        BlsctAmountRecoveryReq {
            range_proof: self.range_proof@.ptr,
            range_proof_size: self.range_proof@.size,
            nonce: self.nonce@.ptr,
        }
    }

    pub fn native(&self) -> (req: BlsctAmountRecoveryReq)
        ensures
            req == self.spec_native(),
    {
        BlsctAmountRecoveryReq {
            range_proof: self.range_proof.value(),
            range_proof_size: self.range_proof.size(),
            nonce: self.nonce.value(),
        }
    }
}

} // verus!
