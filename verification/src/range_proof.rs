//! Range proofs: how one is built, how a batch is verified, and how amounts are recovered.

use vstd::prelude::*;
use vstd::utf8::encode_utf8;
use crate::amount_recovery_req::AmountRecoveryReq;
use crate::amount_recovery_res::AmountRecoveryRes;
use crate::blsct_obj::BlsctObj;
use crate::blsct_obj::ObjView;
use crate::blsct_obj::Release;
use crate::blsct_obj::read_retval;
use crate::blsct_obj::sound;
use crate::blsct_obj;
use crate::blsct_serde::ObjKind;
use crate::blsct_serde;
use crate::ffi::BlsctAmountRecoveryReq;
use crate::ffi::BlsctAmountsRetVal;
use crate::ffi::BlsctBoolRetVal;
use crate::ffi::BlsctRetVal;
use crate::util::decimal_text;
use crate::util::numbered;

verus! {

/// A range proof: a native object whose size travels with it.
#[derive(Debug)]
pub struct RangeProof {
    obj: BlsctObj,
}

impl View for RangeProof {
    type V = ObjView;

    /// What the value owns: the view of the handle that it is built on.
    closed spec fn view(&self) -> ObjView {
        self.obj@
    }
}

impl RangeProof {
    /// The native type of the value.
    pub fn kind() -> (kind: ObjKind)
        ensures
            kind == ObjKind::RangeProof,
    {
        ObjKind::RangeProof
    }

    /// Reads the envelope of a native call that makes a range proof.
    pub fn from_retval(rv: Option<BlsctRetVal>) -> (res: Result<Self, blsct_obj::Error>)
        requires
            sound(rv),
        ensures
            match read_retval(rv) {
                Ok((ptr, size)) => res matches Ok(v) && v@.owns(ptr, size, None),
                Err(e) => res == Err::<Self, blsct_obj::Error>(e),
            },
    {
        match BlsctObj::from_retval(rv) {
            Ok(obj) => Ok(RangeProof { obj }),
            Err(e) => Err(e),
        }
    }

    pub fn from(obj: BlsctObj) -> (v: Self)
        ensures
            v@ == obj@,
    {
        RangeProof { obj }
    }

    /// The address of the native object, which is never null.
    pub fn value(&self) -> (ptr: usize)
        ensures
            ptr == self@.ptr,
            ptr != 0,
    {
        self.obj.as_ptr()
    }

    /// The size of the native object.
    pub fn size(&self) -> (n: usize)
        ensures
            n == self@.size,
    {
        self.obj.size()
    }

    /// The calls that build a proof over `amounts` with the message `msg`,
    /// and the message as a C string. A message with a zero byte in it is
    /// refused before anything is created, so nothing is left to release.
    pub fn build_calls(amounts: &Vec<u64>, msg: &str) -> (res: Result<(Vec<Call>, Vec<u8>), Error>)
        ensures
            res matches Ok(plan) ==> !encode_utf8(msg@).contains(0u8) && plan.0@ == proof_calls(
                amounts@,
            ) && plan.1@ == encode_utf8(msg@).push(0u8),
            res matches Err(e) ==> (e matches Error::FailedToCreateCString(at) && at
                < encode_utf8(msg@).len() && encode_utf8(msg@)[at as int] == 0 && forall|k: int|
                0 <= k < at ==> encode_utf8(msg@)[k] != 0),
    {
        let c_msg = match blsct_serde::c_string(msg) {
            Ok(c) => c,
            Err(at) => {
                return Err(Error::FailedToCreateCString(at));
            },
        };
        let mut calls: Vec<Call> = Vec::new();
        calls.push(Call::CreateUint64Vec);
        let ghost head = calls@;
        let mut i: usize = 0;
        while i < amounts.len()
            invariant
                i <= amounts@.len(),
                calls@ == head + Seq::new(i as nat, |k: int| Call::AddToUint64Vec(amounts@[k])),
            decreases amounts@.len() - i,
        {
            calls.push(Call::AddToUint64Vec(amounts[i]));
            i += 1;
            assert(calls@ =~= head + Seq::new(
                i as nat,
                |k: int| Call::AddToUint64Vec(amounts@[k]),
            ));
        }
        calls.push(Call::BuildRangeProof);
        calls.push(Call::DeleteUint64Vec);
        assert(head =~= seq![Call::CreateUint64Vec]);
        assert(calls@ =~= proof_calls(amounts@));
        Ok((calls, c_msg))
    }

    /// Reads how building a proof ended. `vec` is the address of the number
    /// vector; where it is null nothing else was called. Else `rv` is the
    /// envelope of the build.
    pub fn new(vec: usize, rv: Option<BlsctRetVal>) -> (res: Result<Self, Error>)
        requires
            vec != 0 ==> sound(rv),
        ensures
            vec == 0 ==> res == Err::<Self, Error>(Error::FailedToCreateUint64Vec),
            vec != 0 ==> match read_retval(rv) {
                Ok((ptr, size)) => res matches Ok(v) && v@.owns(ptr, size, None),
                Err(e) => res == Err::<Self, Error>(Error::BlsctObjError(e)),
            },
    {
        if vec == 0 {
            return Err(Error::FailedToCreateUint64Vec);
        }
        match BlsctObj::from_retval(rv) {
            Ok(obj) => Ok(RangeProof { obj }),
            Err(e) => Err(Error::BlsctObjError(e)),
        }
    }

    /// The calls that verify `proofs` as one batch. Each proof goes into the
    /// vector with its own size.
    pub fn verify_calls(proofs: &Vec<&RangeProof>) -> (calls: Vec<Call>)
        ensures
            calls@ == batch_calls(proofs@),
    {
        let mut calls: Vec<Call> = Vec::new();
        calls.push(Call::CreateRangeProofVec);
        let ghost head = calls@;
        let mut i: usize = 0;
        while i < proofs.len()
            invariant
                i <= proofs@.len(),
                calls@ == head + Seq::new(
                    i as nat,
                    |k: int|
                        Call::AddToRangeProofVec(
                            proofs@[k]@.ptr,
                            proofs@[k]@.size,
                        ),
                ),
            decreases proofs@.len() - i,
        {
            calls.push(Call::AddToRangeProofVec(proofs[i].value(), proofs[i].size()));
            i += 1;
            assert(calls@ =~= head + Seq::new(
                i as nat,
                |k: int|
                    Call::AddToRangeProofVec(
                        proofs@[k]@.ptr,
                        proofs@[k]@.size,
                    ),
            ));
        }
        calls.push(Call::VerifyRangeProofs);
        calls.push(Call::DeleteRangeProofVec);
        calls.push(Call::FreeObj);
        assert(head =~= seq![Call::CreateRangeProofVec]);
        assert(calls@ =~= batch_calls(proofs@));
        calls
    }

    /// Reads how a batch verification ended. `vec` is the address of the
    /// proof vector; where it is null nothing else was called. Else `rv` is
    /// the answer of the verification, `None` for null.
    pub fn verify_proofs(vec: usize, rv: Option<BlsctBoolRetVal>) -> (res: Result<bool, Error>)
        ensures
            res == verdict(vec, rv),
    {
        if vec == 0 {
            return Err(Error::FailedToCreateRangeProofVector);
        }
        match rv {
            None => Err(Error::BlsctObjError(blsct_obj::Error::FailedToAllocateMemory)),
            Some(e) => {
                if e.result == 0 {
                    Ok(e.value)
                } else {
                    Err(Error::FailedToVerifyRangeProofs(e.result))
                }
            },
        }
    }

    /// The calls that recover the amounts of `reqs` as one batch: each
    /// request is made into a native request and appended; the vector is
    /// deleted once the recovery has run.
    pub fn recover_calls(reqs: &Vec<AmountRecoveryReq>) -> (calls: Vec<Call>)
        ensures
            calls@ == recovery_calls(reqs@),
    {
        let mut calls: Vec<Call> = Vec::new();
        calls.push(Call::CreateAmountRecoveryReqVec);
        let ghost head = calls@;
        let mut i: usize = 0;
        while i < reqs.len()
            invariant
                i <= reqs@.len(),
                calls@ == head + Seq::new(
                    i as nat,
                    |k: int| Call::AddAmountRecoveryReq(reqs@[k].spec_native()),
                ),
            decreases reqs@.len() - i,
        {
            calls.push(Call::AddAmountRecoveryReq(reqs[i].native()));
            i += 1;
            assert(calls@ =~= head + Seq::new(
                i as nat,
                |k: int| Call::AddAmountRecoveryReq(reqs@[k].spec_native()),
            ));
        }
        calls.push(Call::RecoverAmount);
        calls.push(Call::DeleteAmountRecoveryReqVec);
        assert(head =~= seq![Call::CreateAmountRecoveryReqVec]);
        assert(calls@ =~= recovery_calls(reqs@));
        calls
    }

    /// The number of results that the native library reports; a negative
    /// report counts as none.
    pub fn result_size(reported: i16) -> (n: usize)
        ensures
            n == (if reported < 0 {
                0
            } else {
                reported as int
            }),
    {
        if reported < 0 {
            0
        } else {
            reported as usize
        }
    }

    /// Reads how a recovery ended. `vec` is the address of the request
    /// vector; where it is null nothing else was called. Else `rv` is the
    /// answer of the recovery, `None` for null, and on a zero status
    /// `entries` holds what the native accessors read for each result, in
    /// order. A result without a message gets the empty message.
    pub fn recover_amounts(
        vec: usize,
        rv: Option<BlsctAmountsRetVal>,
        entries: &Vec<RecoveredAmount>,
    ) -> (res: Result<Vec<AmountRecoveryRes>, Error>)
        ensures
            match recovery_failure(vec, rv) {
                Some(e) => res == Err::<Vec<AmountRecoveryRes>, Error>(e),
                None => res matches Ok(results) && results@.len() == entries@.len() && forall|
                    i: int,
                |
                    0 <= i < entries@.len() ==> (#[trigger] results@[i]).is_succ
                        == entries@[i].is_succ && results@[i].amount == entries@[i].amount
                        && results@[i].msg@ == entries@[i].spec_msg(),
            },
    {
        if vec == 0 {
            return Err(Error::FailedToCreateAmountRecoveryRequestVector);
        }
        match rv {
            None => {
                return Err(Error::BlsctObjError(blsct_obj::Error::FailedToAllocateMemory));
            },
            Some(e) => {
                if e.result != 0 {
                    return Err(Error::FailedToRecoverAmount(e.result));
                }
            },
        }
        let mut results: Vec<AmountRecoveryRes> = Vec::new();
        let mut i: usize = 0;
        while i < entries.len()
            invariant
                i <= entries@.len(),
                results@.len() == i,
                forall|k: int|
                    0 <= k < i ==> (#[trigger] results@[k]).is_succ == entries@[k].is_succ
                        && results@[k].amount == entries@[k].amount && results@[k].msg@
                        == entries@[k].spec_msg(),
            decreases entries@.len() - i,
        {
            let entry = &entries[i];
            let result = match &entry.msg {
                Some(m) => AmountRecoveryRes::new(entry.is_succ, entry.amount, m.as_str()),
                None => {
                    proof {
                        reveal_strlit("");
                        assert(""@ =~= Seq::<char>::empty());
                    }
                    AmountRecoveryRes::new(entry.is_succ, entry.amount, "")
                },
            };
            results.push(result);
            i += 1;
        }
        Ok(results)
    }

    /// Equality of two proofs by their parts. The parts are points and
    /// scalars, so for each pair of them the answer of its native equality
    /// is given; the proofs are equal where every answer is yes.
    pub fn eq(answers: &[i32]) -> (same: bool)
        ensures
            same == (forall|i: int| 0 <= i < answers@.len() ==> answers@[i] != 0),
    {
        let mut i: usize = 0;
        while i < answers.len()
            invariant
                i <= answers@.len(),
                forall|k: int| 0 <= k < i ==> answers@[k] != 0,
            decreases answers@.len() - i,
        {
            if answers[i] == 0 {
                return false;
            }
            i += 1;
        }
        true
    }

    /// Gives the value up: the one release that is owed for it.
    pub fn release(self) -> (r: Release)
        ensures
            r == self@.owed(),
    {
        self.obj.release()
    }
}

/// Why a range proof operation failed.
#[derive(Debug, Clone, Copy, PartialEq, Eq, Structural)]
pub enum Error {
    /// The envelope of the build gave no proof.
    BlsctObjError(blsct_obj::Error),
    FailedToCreateUint64Vec,
    /// The message holds a zero byte at this position.
    FailedToCreateCString(usize),
    FailedToCreateRangeProofVector,
    /// Verification failed with this status.
    FailedToVerifyRangeProofs(u8),
    FailedToCreateAmountRecoveryRequestVector,
    /// Recovery failed with this status.
    FailedToRecoverAmount(u8),
}

impl Error {
    pub open spec fn spec_message(self) -> Seq<char> {
        match self {
            Error::BlsctObjError(e) => "BlsctObjError: "@ + e.spec_message(),
            Error::FailedToCreateUint64Vec => "Failed to create uint64_t vector"@,
            Error::FailedToCreateCString(at) => "Failed to create CString: nul byte at "@
                + decimal_text(at as nat),
            Error::FailedToCreateRangeProofVector => "Failed to create range proof vector"@,
            Error::FailedToVerifyRangeProofs(code) => "Failed to verify range proofs: "@
                + decimal_text(code as nat),
            Error::FailedToCreateAmountRecoveryRequestVector =>
                "Failed to create amount recovery request vector"@,
            Error::FailedToRecoverAmount(code) => "Failed to recover amount: "@ + decimal_text(
                code as nat,
            ),
        }
    }

    /// The error in words, with the status or the position that it carries.
    pub fn message(self) -> (text: String)
        ensures
            text@ == self.spec_message(),
    {
        match self {
            Error::BlsctObjError(e) => {
                let inner = e.message();
                String::from_str("BlsctObjError: ").concat(inner.as_str())
            },
            Error::FailedToCreateUint64Vec => String::from_str("Failed to create uint64_t vector"),
            Error::FailedToCreateCString(at) => numbered(
                "Failed to create CString: nul byte at ",
                at,
            ),
            Error::FailedToCreateRangeProofVector => String::from_str(
                "Failed to create range proof vector",
            ),
            Error::FailedToVerifyRangeProofs(code) => numbered(
                "Failed to verify range proofs: ",
                code as usize,
            ),
            Error::FailedToCreateAmountRecoveryRequestVector => String::from_str(
                "Failed to create amount recovery request vector",
            ),
            Error::FailedToRecoverAmount(code) => numbered(
                "Failed to recover amount: ",
                code as usize,
            ),
        }
    }
}

/// One native call of a range proof operation.
#[derive(Debug, Clone, Copy, PartialEq, Eq, Structural)]
pub enum Call {
    CreateUint64Vec,
    /// Appends this amount to the number vector.
    AddToUint64Vec(u64),
    /// Builds the proof from the number vector, the nonce, the message and
    /// the token identifier.
    BuildRangeProof,
    DeleteUint64Vec,
    CreateRangeProofVec,
    /// Appends the proof at this address, of this size, to the proof vector.
    AddToRangeProofVec(usize, usize),
    VerifyRangeProofs,
    DeleteRangeProofVec,
    /// Frees the answer of the verification.
    FreeObj,
    CreateAmountRecoveryReqVec,
    /// Makes a native request of these parts and appends it to the request
    /// vector.
    AddAmountRecoveryReq(BlsctAmountRecoveryReq),
    RecoverAmount,
    DeleteAmountRecoveryReqVec,
}

/// What the native accessors read for one result of a recovery. `msg` is
/// `None` where the accessor returned null.
#[derive(Debug)]
pub struct RecoveredAmount {
    pub is_succ: bool,
    pub amount: u64,
    pub msg: Option<String>,
}

impl RecoveredAmount {
    /// The message of the result; the empty one where there is none.
    pub open spec fn spec_msg(&self) -> Seq<char> {
        match self.msg {
            Some(m) => m@,
            None => Seq::empty(),
        }
    }
}

/// The calls that build a proof: the number vector is made, filled in
/// order, used by the build and deleted.
pub open spec fn proof_calls(amounts: Seq<u64>) -> Seq<Call> {
    seq![Call::CreateUint64Vec] + Seq::new(amounts.len(), |i: int| Call::AddToUint64Vec(amounts[i]))
        + seq![Call::BuildRangeProof, Call::DeleteUint64Vec]
}

/// The calls that verify a batch: the proof vector is made, filled in order
/// with each proof and its size, verified, and deleted; then the answer is
/// freed.
pub open spec fn batch_calls(proofs: Seq<&RangeProof>) -> Seq<Call> {
    seq![Call::CreateRangeProofVec] + Seq::new(
        proofs.len(),
        |i: int|
            Call::AddToRangeProofVec(proofs[i]@.ptr, proofs[i]@.size),
    ) + seq![Call::VerifyRangeProofs, Call::DeleteRangeProofVec, Call::FreeObj]
}

/// The calls that recover amounts: the request vector is made, filled in
/// order, used by the recovery and deleted.
pub open spec fn recovery_calls(reqs: Seq<AmountRecoveryReq>) -> Seq<Call> {
    seq![Call::CreateAmountRecoveryReqVec] + Seq::new(
        reqs.len(),
        |i: int| Call::AddAmountRecoveryReq(reqs[i].spec_native()),
    ) + seq![Call::RecoverAmount, Call::DeleteAmountRecoveryReqVec]
}

/// What a batch verification says: whether all proofs hold, or why that is
/// not known.
pub open spec fn verdict(vec: usize, rv: Option<BlsctBoolRetVal>) -> Result<bool, Error> {
    if vec == 0 {
        Err(Error::FailedToCreateRangeProofVector)
    } else {
        match rv {
            None => Err(Error::BlsctObjError(blsct_obj::Error::FailedToAllocateMemory)),
            Some(e) => if e.result == 0 {
                Ok(e.value)
            } else {
                Err(Error::FailedToVerifyRangeProofs(e.result))
            },
        }
    }
}

/// Why a recovery gave no results, if it gave none.
pub open spec fn recovery_failure(vec: usize, rv: Option<BlsctAmountsRetVal>) -> Option<Error> {
    if vec == 0 {
        Some(Error::FailedToCreateAmountRecoveryRequestVector)
    } else {
        match rv {
            None => Some(Error::BlsctObjError(blsct_obj::Error::FailedToAllocateMemory)),
            Some(e) => if e.result != 0 {
                Some(Error::FailedToRecoverAmount(e.result))
            } else {
                None
            },
        }
    }
}

/// Every vector that a range proof operation makes is deleted in the same
/// operation: each list of calls starts by making its vector, deletes it
/// after the one call that uses it, and between the two only appends.
pub proof fn law_vectors_deleted(
    amounts: Seq<u64>,
    proofs: Seq<&RangeProof>,
    reqs: Seq<AmountRecoveryReq>,
)
    ensures
        ({
            let calls = proof_calls(amounts);
            let n = amounts.len() as int;
            &&& calls.len() == n + 3
            &&& calls[0] == Call::CreateUint64Vec
            &&& forall|i: int| 1 <= i <= n ==> #[trigger] calls[i] is AddToUint64Vec
            &&& calls[n + 1] == Call::BuildRangeProof
            &&& calls[n + 2] == Call::DeleteUint64Vec
        }),
        ({
            let calls = batch_calls(proofs);
            let n = proofs.len() as int;
            &&& calls.len() == n + 4
            &&& calls[0] == Call::CreateRangeProofVec
            &&& forall|i: int| 1 <= i <= n ==> #[trigger] calls[i] is AddToRangeProofVec
            &&& calls[n + 1] == Call::VerifyRangeProofs
            &&& calls[n + 2] == Call::DeleteRangeProofVec
            &&& calls[n + 3] == Call::FreeObj
        }),
        ({
            let calls = recovery_calls(reqs);
            let n = reqs.len() as int;
            &&& calls.len() == n + 3
            &&& calls[0] == Call::CreateAmountRecoveryReqVec
            &&& forall|i: int| 1 <= i <= n ==> #[trigger] calls[i] is AddAmountRecoveryReq
            &&& calls[n + 1] == Call::RecoverAmount
            &&& calls[n + 2] == Call::DeleteAmountRecoveryReqVec
        }),
{
}

} // verus!
