//! Confidential transactions: the calls that assemble one, and what the
//! builder's answer means.

use vstd::prelude::*;
use crate::blsct_obj::BlsctObj;
use crate::blsct_obj::ObjView;
use crate::blsct_obj::Release;
use crate::blsct_serde::ObjKind;
use crate::ffi::BlsctCTxRetVal;
use crate::ffi::BLSCT_IN_AMOUNT_ERROR;
use crate::ffi::BLSCT_OUT_AMOUNT_ERROR;
use crate::tx_in::TxIn;
use crate::util::decimal_text;
use crate::util::numbered;
use crate::tx_out::TxOut;

verus! {

/// Why no transaction was built.
#[derive(Debug, Clone, Copy, PartialEq, Eq, Structural)]
pub enum Error {
    /// The builder returned null.
    FailedToAllocateMemory,
    /// The amount of the input at this index is invalid.
    InAmountError(usize),
    /// The amount of the output at this index is invalid.
    OutAmountError(usize),
    /// The builder failed with this status.
    FailedToBuildCTx(u8),
}

impl Error {
    pub open spec fn spec_message(self) -> Seq<char> {
        match self {
            Error::FailedToAllocateMemory => "Failed to allocate memory for CTx"@,
            Error::InAmountError(index) => "Invalid in-amount found at "@ + decimal_text(
                index as nat,
            ),
            Error::OutAmountError(index) => "Invalid out-amount found at "@ + decimal_text(
                index as nat,
            ),
            Error::FailedToBuildCTx(code) => "Failed to build CTx: "@ + decimal_text(code as nat),
        }
    }

    /// The error in words, with the index or the status that it carries.
    pub fn message(self) -> (text: String)
        ensures
            text@ == self.spec_message(),
    {
        match self {
            Error::FailedToAllocateMemory => String::from_str("Failed to allocate memory for CTx"),
            Error::InAmountError(index) => numbered("Invalid in-amount found at ", index),
            Error::OutAmountError(index) => numbered("Invalid out-amount found at ", index),
            Error::FailedToBuildCTx(code) => numbered("Failed to build CTx: ", code as usize),
        }
    }
}

/// One native call of the assembly of a transaction.
#[derive(Debug, Clone, Copy, PartialEq, Eq, Structural)]
pub enum Call {
    CreateTxInVec,
    CreateTxOutVec,
    /// Appends the input at this address to the input vector.
    AddToTxInVec(usize),
    /// Appends the output at this address to the output vector.
    AddToTxOutVec(usize),
    /// Builds the transaction from the two vectors.
    BuildCTx,
    DeleteTxInVec,
    DeleteTxOutVec,
    /// Frees the builder's answer.
    FreeObj,
}

/// A built transaction. The native library keeps its inputs and outputs;
/// they are seen through views that borrow the transaction.
#[derive(Debug)]
pub struct CTx {
    obj: BlsctObj,
}

/// The calls up to and including the build: both vectors are made, every
/// input and then every output is appended in order, and the builder runs.
pub open spec fn collect_calls(tx_ins: Seq<&TxIn>, tx_outs: Seq<&TxOut>) -> Seq<Call> {
    seq![Call::CreateTxInVec, Call::CreateTxOutVec] + Seq::new(
        tx_ins.len(),
        |i: int| Call::AddToTxInVec(tx_ins[i]@.ptr),
    ) + Seq::new(tx_outs.len(), |i: int| Call::AddToTxOutVec(tx_outs[i]@.ptr))
        + seq![Call::BuildCTx]
}

/// The calls after the build, whatever it answered: both vectors are
/// deleted, and the answer is freed unless it is null.
pub open spec fn release_calls(rv: Option<BlsctCTxRetVal>) -> Seq<Call> {
    if rv.is_some() {
        seq![Call::DeleteTxInVec, Call::DeleteTxOutVec, Call::FreeObj]
    } else {
        seq![Call::DeleteTxInVec, Call::DeleteTxOutVec]
    }
}

/// What the builder's answer means: the address of the transaction, or the
/// error. `None` stands for the null answer.
pub open spec fn build_outcome(rv: Option<BlsctCTxRetVal>) -> Result<usize, Error> {
    match rv {
        None => Err(Error::FailedToAllocateMemory),
        Some(e) => if e.result == 0 {
            Ok(e.ctx)
        } else if e.result == BLSCT_IN_AMOUNT_ERROR {
            Err(Error::InAmountError(e.in_amount_err_index))
        } else if e.result == BLSCT_OUT_AMOUNT_ERROR {
            Err(Error::OutAmountError(e.out_amount_err_index))
        } else {
            Err(Error::FailedToBuildCTx(e.result))
        },
    }
}

impl View for CTx {
    type V = ObjView;

    /// What the transaction owns: the view of the handle that it is built
    /// on.
    closed spec fn view(&self) -> ObjView {
        self.obj@
    }
}

impl CTx {
    /// The native type of the value.
    pub fn kind() -> (kind: ObjKind)
        ensures
            kind == ObjKind::CTx,
    {
        ObjKind::CTx
    }

    /// The calls that collect the inputs and outputs and build the
    /// transaction, in the order in which they are made.
    pub fn collect(tx_ins: &Vec<&TxIn>, tx_outs: &Vec<&TxOut>) -> (calls: Vec<Call>)
        ensures
            calls@ == collect_calls(tx_ins@, tx_outs@),
    {
        let mut calls: Vec<Call> = Vec::new();
        calls.push(Call::CreateTxInVec);
        calls.push(Call::CreateTxOutVec);
        let ghost head = calls@;
        let mut i: usize = 0;
        while i < tx_ins.len()
            invariant
                i <= tx_ins@.len(),
                calls@ == head + Seq::new(
                    i as nat,
                    |k: int| Call::AddToTxInVec(tx_ins@[k]@.ptr),
                ),
            decreases tx_ins@.len() - i,
        {
            calls.push(Call::AddToTxInVec(tx_ins[i].value()));
            i += 1;
            assert(calls@ =~= head + Seq::new(
                i as nat,
                |k: int| Call::AddToTxInVec(tx_ins@[k]@.ptr),
            ));
        }
        let ghost mid = calls@;
        let mut j: usize = 0;
        while j < tx_outs.len()
            invariant
                j <= tx_outs@.len(),
                calls@ == mid + Seq::new(
                    j as nat,
                    |k: int| Call::AddToTxOutVec(tx_outs@[k]@.ptr),
                ),
            decreases tx_outs@.len() - j,
        {
            calls.push(Call::AddToTxOutVec(tx_outs[j].value()));
            j += 1;
            assert(calls@ =~= mid + Seq::new(
                j as nat,
                |k: int| Call::AddToTxOutVec(tx_outs@[k]@.ptr),
            ));
        }
        calls.push(Call::BuildCTx);
        assert(head =~= seq![Call::CreateTxInVec, Call::CreateTxOutVec]);
        assert(calls@ =~= collect_calls(tx_ins@, tx_outs@));
        calls
    }

    /// Reads the builder's answer. A transaction that was built is owned
    /// from here on and released by `delete_ctx`, the address of its
    /// destructor; its size is not known and not used. Beside the result
    /// stand the calls that undo the collecting: both vectors are deleted
    /// whatever the answer is, and the answer is freed unless it is null.
    pub fn new(rv: Option<BlsctCTxRetVal>, delete_ctx: usize) -> (res: (
        Result<Self, Error>,
        Vec<Call>,
    ))
        requires
            rv matches Some(e) ==> (e.result == 0 ==> e.ctx != 0),
            delete_ctx != 0,
        ensures
            res.1@ == release_calls(rv),
            match build_outcome(rv) {
                Ok(ptr) => res.0 matches Ok(ctx) && ctx@.owns(ptr, 0, Some(delete_ctx)),
                Err(e) => res.0 == Err::<Self, Error>(e),
            },
    {
        let mut calls: Vec<Call> = Vec::new();
        calls.push(Call::DeleteTxInVec);
        calls.push(Call::DeleteTxOutVec);
        match rv {
            None => {
                assert(calls@ =~= release_calls(rv));
                (Err(Error::FailedToAllocateMemory), calls)
            },
            Some(e) => {
                calls.push(Call::FreeObj);
                assert(calls@ =~= release_calls(rv));
                if e.result == 0 {
                    let obj = BlsctObj::new_with_deallocator(e.ctx, 0, Some(delete_ctx));
                    (Ok(CTx { obj }), calls)
                } else if e.result == BLSCT_IN_AMOUNT_ERROR {
                    (Err(Error::InAmountError(e.in_amount_err_index)), calls)
                } else if e.result == BLSCT_OUT_AMOUNT_ERROR {
                    (Err(Error::OutAmountError(e.out_amount_err_index)), calls)
                } else {
                    (Err(Error::FailedToBuildCTx(e.result)), calls)
                }
            },
        }
    }

    pub fn from(obj: BlsctObj) -> (v: Self)
        ensures
            v@ == obj@,
    {
        CTx { obj }
    }

    /// The address of the native transaction, which is never null.
    pub fn value(&self) -> (ptr: usize)
        ensures
            ptr == self@.ptr,
            ptr != 0,
    {
        self.obj.as_ptr()
    }

    /// The size of the handle, which for a transaction is not used.
    pub fn size(&self) -> (n: usize)
        ensures
            n == self@.size,
    {
        self.obj.size()
    }

    /// Gives the transaction up: the one release that is owed for it.
    pub fn release(self) -> (r: Release)
        ensures
            r == self@.owed(),
    {
        self.obj.release()
    }
}

/// Whether a call belongs to the collecting: it makes a vector or appends to
/// one.
pub open spec fn collects(c: Call) -> bool {
    c is CreateTxInVec || c is CreateTxOutVec || c is AddToTxInVec || c is AddToTxOutVec
}

/// Whether a call belongs to the releasing: it deletes a vector or frees
/// the builder's answer.
pub open spec fn releases(c: Call) -> bool {
    c is DeleteTxInVec || c is DeleteTxOutVec || c is FreeObj
}

/// The order of an assembly is strict: in the calls of a whole run, the
/// build stands behind all collecting and before all releasing, and
/// nothing else is called.
pub proof fn law_collect_build_release(
    tx_ins: Seq<&TxIn>,
    tx_outs: Seq<&TxOut>,
    rv: Option<BlsctCTxRetVal>,
)
    ensures
        ({
            let run = collect_calls(tx_ins, tx_outs) + release_calls(rv);
            let build = 2 + tx_ins.len() + tx_outs.len();
            &&& build < run.len()
            &&& run[build as int] == Call::BuildCTx
            &&& forall|i: int| 0 <= i < build ==> collects(#[trigger] run[i])
            &&& forall|i: int| build < i < run.len() ==> releases(#[trigger] run[i])
        }),
{
}

/// Whatever the builder answers, each of the two vectors is deleted exactly
/// once, after the build, and the answer is freed exactly when there is one.
pub proof fn law_vectors_released(rv: Option<BlsctCTxRetVal>)
    ensures
        release_calls(rv).filter(|c: Call| c == Call::DeleteTxInVec).len() == 1,
        release_calls(rv).filter(|c: Call| c == Call::DeleteTxOutVec).len() == 1,
        release_calls(rv).contains(Call::FreeObj) <==> rv.is_some(),
{
    let calls = release_calls(rv);
    reveal_with_fuel(Seq::filter, 5);
    assert(calls.drop_last().drop_last() =~= if rv.is_some() {
        seq![Call::DeleteTxInVec]
    } else {
        Seq::<Call>::empty()
    });
    if rv.is_some() {
        assert(calls.drop_last() =~= seq![Call::DeleteTxInVec, Call::DeleteTxOutVec]);
        assert(calls.drop_last().drop_last().drop_last() =~= Seq::<Call>::empty());
        assert(calls[2] == Call::FreeObj);
    } else {
        assert(calls.drop_last() =~= seq![Call::DeleteTxInVec]);
    }
}

} // verus!
