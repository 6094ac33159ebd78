//! What amount recovery says of one request.

use vstd::prelude::*;

verus! {

/// The answer to one recovery request: whether it succeeded, the amount
/// that was recovered, and the message that was stored with the proof.
#[derive(Debug, Eq)]
pub struct AmountRecoveryRes {
    pub is_succ: bool,
    pub amount: u64,
    pub msg: String,
}

impl AmountRecoveryRes {
    pub fn new(is_succ: bool, amount: u64, msg: &str) -> (res: Self)
        ensures
            res.is_succ == is_succ,
            res.amount == amount,
            res.msg@ == msg@,
    {
        AmountRecoveryRes { is_succ, amount, msg: msg.to_owned() }
    }
}

impl PartialEq for AmountRecoveryRes {
    fn eq(&self, other: &Self) -> (same: bool) {
        self.is_succ == other.is_succ && self.amount == other.amount && self.msg == other.msg
    }
}

impl vstd::std_specs::cmp::PartialEqSpecImpl for AmountRecoveryRes {
    open spec fn obeys_eq_spec() -> bool {
        true
    }

    open spec fn eq_spec(&self, other: &Self) -> bool {
        self.is_succ == other.is_succ && self.amount == other.amount && self.msg@ == other.msg@
    }
}

} // verus!
