use blsct::address;
use blsct::address::Address;
use blsct::amount_recovery_req::AmountRecoveryReq;
use blsct::blsct_obj;
use blsct::blsct_obj::BlsctObj;
use blsct::blsct_obj::Deallocator;
use blsct::blsct_obj::Release;
use blsct::ctx;
use blsct::ctx::CTx;
use blsct::ctx_ins;
use blsct::ctx_ins::CTxIns;
use blsct::ctx_outs;
use blsct::ctx_outs::CTxOuts;
use blsct::ffi::BlsctAmountRecoveryReq;
use blsct::ffi::BlsctAmountsRetVal;
use blsct::ffi::BlsctBoolRetVal;
use blsct::ffi::BlsctCTxRetVal;
use blsct::ffi::BlsctRetVal;
use blsct::ffi::BLSCT_IN_AMOUNT_ERROR;
use blsct::ffi::BLSCT_OUT_AMOUNT_ERROR;
use blsct::point::Point;
use blsct::range_proof;
use blsct::range_proof::RangeProof;
use blsct::range_proof::RecoveredAmount;
use blsct::tx_in::TxIn;
use blsct::tx_out::TxOut;

fn tx_in_at(ptr: usize) -> TxIn {
    TxIn::from(BlsctObj::new(ptr, 200))
}

fn tx_out_at(ptr: usize) -> TxOut {
    TxOut::from(BlsctObj::new(ptr, 300))
}

fn answer(result: u8, ctx: usize, i: usize, j: usize) -> Option<BlsctCTxRetVal> {
    Some(BlsctCTxRetVal { result, ctx, in_amount_err_index: i, out_amount_err_index: j })
}

#[test]
fn collect_appends_inputs_then_outputs_then_builds() {
    let (in_a, in_b, out_a) = (tx_in_at(0x10), tx_in_at(0x20), tx_out_at(0x30));
    let tx_ins = vec![&in_a, &in_b];
    let tx_outs = vec![&out_a];
    assert_eq!(
        CTx::collect(&tx_ins, &tx_outs),
        vec![
            ctx::Call::CreateTxInVec,
            ctx::Call::CreateTxOutVec,
            ctx::Call::AddToTxInVec(0x10),
            ctx::Call::AddToTxInVec(0x20),
            ctx::Call::AddToTxOutVec(0x30),
            ctx::Call::BuildCTx,
        ]
    );
    assert_eq!(
        CTx::collect(&Vec::new(), &Vec::new()),
        vec![ctx::Call::CreateTxInVec, ctx::Call::CreateTxOutVec, ctx::Call::BuildCTx]
    );
}

#[test]
fn build_with_insufficient_input_reports_index_zero() {
    let fee_rate: u64 = 200000;
    let out_amount: u64 = 10000;
    let needed = (1 + 1) * fee_rate + out_amount;
    assert_eq!(needed, 410000);
    let (res, calls) = CTx::new(answer(BLSCT_IN_AMOUNT_ERROR, 0, 0, 0), 0xd0);
    assert_eq!(res.unwrap_err(), ctx::Error::InAmountError(0));
    assert_eq!(
        calls,
        vec![ctx::Call::DeleteTxInVec, ctx::Call::DeleteTxOutVec, ctx::Call::FreeObj]
    );
}

#[test]
fn build_errors_keep_code_and_index() {
    let (res, _) = CTx::new(answer(BLSCT_IN_AMOUNT_ERROR, 0, 3, 9), 0xd0);
    assert_eq!(res.unwrap_err(), ctx::Error::InAmountError(3));
    let (res, calls) = CTx::new(answer(BLSCT_OUT_AMOUNT_ERROR, 0, 3, 9), 0xd0);
    assert_eq!(res.unwrap_err(), ctx::Error::OutAmountError(9));
    assert_eq!(calls.len(), 3);
    let (res, _) = CTx::new(answer(1, 0, 3, 9), 0xd0);
    assert_eq!(res.unwrap_err(), ctx::Error::FailedToBuildCTx(1));
    let (res, calls) = CTx::new(None, 0xd0);
    assert_eq!(res.unwrap_err(), ctx::Error::FailedToAllocateMemory);
    assert_eq!(calls, vec![ctx::Call::DeleteTxInVec, ctx::Call::DeleteTxOutVec]);
}

#[test]
fn built_transaction_is_released_by_its_destructor() {
    let (res, calls) = CTx::new(answer(0, 0x5000, 0, 0), 0xd0);
    let ctx = res.unwrap();
    assert_eq!(ctx.value(), 0x5000);
    assert_eq!(
        calls,
        vec![ctx::Call::DeleteTxInVec, ctx::Call::DeleteTxOutVec, ctx::Call::FreeObj]
    );
    assert_eq!(ctx.release(), Release { ptr: 0x5000, by: Deallocator::Custom(0xd0) });
}

#[test]
fn ctx_error_messages() {
    assert_eq!(ctx::Error::FailedToAllocateMemory.message(), "Failed to allocate memory for CTx");
    assert_eq!(ctx::Error::InAmountError(0).message(), "Invalid in-amount found at 0");
    assert_eq!(ctx::Error::OutAmountError(12).message(), "Invalid out-amount found at 12");
    assert_eq!(ctx::Error::FailedToBuildCTx(255).message(), "Failed to build CTx: 255");
}

#[test]
fn test_get_ctx_ins() {
    let (res, _) = CTx::new(answer(0, 0x5000, 0, 0), 0xd0);
    let ctx = res.unwrap();
    let ctx_ins = CTxIns::from(&ctx, 0x6000);
    assert_eq!(ctx_ins.value(), 0x6000);
    let ctx_ins_size = 1;
    assert_eq!(ctx_ins.get_ctx_in_at(0, ctx_ins_size), Ok(0));
    assert_eq!(
        ctx_ins.get_ctx_in_at(1, ctx_ins_size),
        Err(ctx_ins::Error::IndexOutOfRange { index: 1, max_index: 0 })
    );
    assert_eq!(ctx_ins.ctx_in(0x6100).value(), 0x6100);
}

#[test]
fn test_get_ctx_outs() {
    let (res, _) = CTx::new(answer(0, 0x5000, 0, 0), 0xd0);
    let ctx = res.unwrap();
    let ctx_outs = CTxOuts::from(&ctx, 0x7000);
    let ctx_outs_size = 3;
    assert_eq!(ctx_outs.get_ctx_out_at(2, ctx_outs_size), Ok(2));
    assert_eq!(
        ctx_outs.get_ctx_out_at(3, ctx_outs_size),
        Err(ctx_outs::Error::IndexOutOfRange { index: 3, max_index: 2 })
    );
    assert_eq!(
        ctx_outs.get_ctx_out_at(0, 0),
        Err(ctx_outs::Error::IndexOutOfRange { index: 0, max_index: 0 })
    );
    assert_eq!(
        ctx_outs::Error::IndexOutOfRange { index: 3, max_index: 2 }.message(),
        "Index 3 is out of range. Max index is 2"
    );
    assert_eq!(ctx_outs.ctx_out(0x7100).value(), 0x7100);
}

fn proof_at(ptr: usize, size: usize) -> RangeProof {
    RangeProof::from_retval(Some(BlsctRetVal { result: 0, value: ptr, value_size: size })).unwrap()
}

#[test]
fn range_proof_build_calls() {
    let (calls, c_msg) = RangeProof::build_calls(&vec![123u64, 7], "navio").unwrap();
    assert_eq!(
        calls,
        vec![
            range_proof::Call::CreateUint64Vec,
            range_proof::Call::AddToUint64Vec(123),
            range_proof::Call::AddToUint64Vec(7),
            range_proof::Call::BuildRangeProof,
            range_proof::Call::DeleteUint64Vec,
        ]
    );
    assert_eq!(c_msg, b"navio\0".to_vec());
    assert_eq!(
        RangeProof::build_calls(&vec![123u64], "na\u{0}vio").unwrap_err(),
        range_proof::Error::FailedToCreateCString(2)
    );
}

#[test]
fn range_proof_new_reads_vector_and_envelope() {
    assert_eq!(
        RangeProof::new(0, None).unwrap_err(),
        range_proof::Error::FailedToCreateUint64Vec
    );
    assert_eq!(
        RangeProof::new(0x10, None).unwrap_err(),
        range_proof::Error::BlsctObjError(blsct_obj::Error::FailedToAllocateMemory)
    );
    let failed = Some(BlsctRetVal { result: 12, value: 0, value_size: 0 });
    assert_eq!(
        RangeProof::new(0x10, failed).unwrap_err(),
        range_proof::Error::BlsctObjError(blsct_obj::Error::FailedToGenerateObject(12))
    );
    let built = Some(BlsctRetVal { result: 0, value: 0x900, value_size: 1315 });
    let rp = RangeProof::new(0x10, built).unwrap();
    assert_eq!(rp.value(), 0x900);
    assert_eq!(rp.size(), 1315);
    assert_eq!(rp.release(), Release { ptr: 0x900, by: Deallocator::FreeObj });
}

#[test]
fn test_prove_and_verify() {
    let rp = proof_at(0x900, 1315);
    assert_eq!(
        RangeProof::verify_calls(&vec![&rp]),
        vec![
            range_proof::Call::CreateRangeProofVec,
            range_proof::Call::AddToRangeProofVec(0x900, 1315),
            range_proof::Call::VerifyRangeProofs,
            range_proof::Call::DeleteRangeProofVec,
            range_proof::Call::FreeObj,
        ]
    );
    let result =
        RangeProof::verify_proofs(0x10, Some(BlsctBoolRetVal { result: 0, value: true })).unwrap();
    assert!(result);
    assert_eq!(
        RangeProof::verify_proofs(0x10, Some(BlsctBoolRetVal { result: 0, value: false })),
        Ok(false)
    );
    assert_eq!(
        RangeProof::verify_proofs(0x10, Some(BlsctBoolRetVal { result: 2, value: true })),
        Err(range_proof::Error::FailedToVerifyRangeProofs(2))
    );
    assert_eq!(
        RangeProof::verify_proofs(0, None),
        Err(range_proof::Error::FailedToCreateRangeProofVector)
    );
    assert_eq!(
        RangeProof::verify_proofs(0x10, None),
        Err(range_proof::Error::BlsctObjError(blsct_obj::Error::FailedToAllocateMemory))
    );
}

#[test]
fn test_recover_amounts() {
    let msg = "navio";
    let amount = 123u64;
    let rp = proof_at(0x900, 1315);
    let nonce = Point::from_c_obj(0xa00);
    let req = AmountRecoveryReq::new(rp, nonce);
    assert_eq!(
        RangeProof::recover_calls(&vec![req]),
        vec![
            range_proof::Call::CreateAmountRecoveryReqVec,
            range_proof::Call::AddAmountRecoveryReq(BlsctAmountRecoveryReq {
                range_proof: 0x900,
                range_proof_size: 1315,
                nonce: 0xa00,
            }),
            range_proof::Call::RecoverAmount,
            range_proof::Call::DeleteAmountRecoveryReqVec,
        ]
    );
    let entries =
        vec![RecoveredAmount { is_succ: true, amount, msg: Some(msg.to_string()) }];
    let rv = Some(BlsctAmountsRetVal { result: 0, value: 0xb00 });
    let res = RangeProof::recover_amounts(0x10, rv, &entries).unwrap();
    assert_eq!(res.len(), 1);
    assert_eq!(res[0].is_succ, true);
    assert_eq!(res[0].amount, amount);
    assert_eq!(res[0].msg, msg);
}

#[test]
fn recover_amounts_failures_and_missing_message() {
    let none: Vec<RecoveredAmount> = Vec::new();
    assert_eq!(
        RangeProof::recover_amounts(0, None, &none).unwrap_err(),
        range_proof::Error::FailedToCreateAmountRecoveryRequestVector
    );
    assert_eq!(
        RangeProof::recover_amounts(0x10, None, &none).unwrap_err(),
        range_proof::Error::BlsctObjError(blsct_obj::Error::FailedToAllocateMemory)
    );
    let failed = Some(BlsctAmountsRetVal { result: 13, value: 0 });
    assert_eq!(
        RangeProof::recover_amounts(0x10, failed, &none).unwrap_err(),
        range_proof::Error::FailedToRecoverAmount(13)
    );
    let entries = vec![
        RecoveredAmount { is_succ: false, amount: 0, msg: None },
        RecoveredAmount { is_succ: true, amount: 9, msg: Some("x".to_string()) },
    ];
    let ok = Some(BlsctAmountsRetVal { result: 0, value: 0xb00 });
    let res = RangeProof::recover_amounts(0x10, ok, &entries).unwrap();
    assert_eq!(res.len(), 2);
    assert_eq!(res[0].is_succ, false);
    assert_eq!(res[0].msg, "");
    assert_eq!(res[1].amount, 9);
    assert_eq!(res[1].msg, "x");
    assert_eq!(RangeProof::result_size(3), 3);
    assert_eq!(RangeProof::result_size(0), 0);
    assert_eq!(RangeProof::result_size(-1), 0);
}

#[test]
fn range_proof_error_messages() {
    assert_eq!(
        range_proof::Error::FailedToVerifyRangeProofs(2).message(),
        "Failed to verify range proofs: 2"
    );
    assert_eq!(
        range_proof::Error::FailedToRecoverAmount(13).message(),
        "Failed to recover amount: 13"
    );
    assert_eq!(
        range_proof::Error::FailedToCreateUint64Vec.message(),
        "Failed to create uint64_t vector"
    );
    assert_eq!(
        range_proof::Error::BlsctObjError(blsct_obj::Error::FailedToGenerateObject(1)).message(),
        "BlsctObjError: Failed to generate object. result code: 1"
    );
}

#[test]
fn test_encode_decode() {
    let rv = Some(BlsctRetVal { result: 0, value: 0x800, value_size: 0 });
    let (res, releases) = Address::encode(rv, 0x700, b"nv1qexample".to_vec());
    let addr_str = res.unwrap();
    assert_eq!(addr_str, "nv1qexample");
    assert_eq!(
        releases,
        vec![
            Release { ptr: 0x800, by: Deallocator::FreeObj },
            Release { ptr: 0x700, by: Deallocator::FreeObj },
        ]
    );
    assert_eq!(Address::decode_request(&addr_str), Ok(b"nv1qexample\0".to_vec()));
    let decoded = Some(BlsctRetVal { result: 0, value: 0x900, value_size: 96 });
    let dpk = Address::decode(decoded).unwrap();
    assert_eq!(dpk.value(), 0x900);
}

#[test]
fn address_failures() {
    let (res, releases) = Address::encode(None, 0, Vec::new());
    assert_eq!(res, Err(address::Error::FailedToAllocateMemory));
    assert!(releases.is_empty());
    let failed = Some(BlsctRetVal { result: 10, value: 0, value_size: 0 });
    let (res, releases) = Address::encode(failed, 0x700, Vec::new());
    assert_eq!(res, Err(address::Error::FailedToEncodeAddress));
    assert_eq!(releases, vec![Release { ptr: 0x700, by: Deallocator::FreeObj }]);
    let ok = Some(BlsctRetVal { result: 0, value: 0x800, value_size: 0 });
    let (res, _) = Address::encode(ok, 0x700, vec![0xff]);
    assert_eq!(res, Err(address::Error::InvalidUtf8));
    assert_eq!(
        Address::decode_request("a\u{0}"),
        Err(address::Error::FailedToConstructCString(1))
    );
    assert_eq!(Address::decode(None).unwrap_err(), address::Error::FailedToAllocateMemory);
    assert_eq!(Address::decode(failed).unwrap_err(), address::Error::FailedToDecodeAddress);
}
