//! Plain-value picture of the native call surface: sizes, status codes and
//! the records that cross it. An address is a `usize`; zero is the null
//! pointer.

use vstd::prelude::*;

verus! {

/// Status of a call that succeeded.
pub const BLSCT_SUCCESS: u8 = 0;

/// Status of a call that failed for no more specific reason.
pub const BLSCT_FAILURE: u8 = 1;

/// Status of a transaction build that met an invalid input amount.
pub const BLSCT_IN_AMOUNT_ERROR: u8 = 14;

/// Status of a transaction build that met an invalid output amount.
pub const BLSCT_OUT_AMOUNT_ERROR: u8 = 15;

pub const CTX_ID_SIZE: usize = 32;

pub const KEY_ID_SIZE: usize = 20;

pub const POINT_SIZE: usize = 48;

pub const PUBLIC_KEY_SIZE: usize = 48;

pub const DOUBLE_PUBLIC_KEY_SIZE: usize = PUBLIC_KEY_SIZE * 2;

pub const OUT_POINT_SIZE: usize = 36;

pub const SUB_ADDR_SIZE: usize = DOUBLE_PUBLIC_KEY_SIZE;

pub const SCALAR_SIZE: usize = 32;

pub const SCRIPT_SIZE: usize = 28;

pub const SIGNATURE_SIZE: usize = 96;

pub const SUB_ADDR_ID_SIZE: usize = 16;

pub const TOKEN_ID_SIZE: usize = 40;

pub const MAX_MEMO_LEN: usize = 100;

pub const MEMO_BUF_SIZE: usize = MAX_MEMO_LEN + 1;

pub type BlsctCTxId = [u8; CTX_ID_SIZE];

pub type BlsctDoublePubKey = [u8; DOUBLE_PUBLIC_KEY_SIZE];

pub type BlsctKeyId = [u8; KEY_ID_SIZE];

pub type BlsctOutPoint = [u8; OUT_POINT_SIZE];

pub type BlsctPoint = [u8; POINT_SIZE];

pub type BlsctPubKey = [u8; PUBLIC_KEY_SIZE];

pub type BlsctScalar = [u8; SCALAR_SIZE];

pub type BlsctScript = [u8; SCRIPT_SIZE];

pub type BlsctSignature = [u8; SIGNATURE_SIZE];

pub type BlsctSubAddr = [u8; SUB_ADDR_SIZE];

pub type BlsctSubAddrId = [u8; SUB_ADDR_ID_SIZE];

pub type BlsctTokenId = [u8; TOKEN_ID_SIZE];

/// What a fallible native call returns: a status, the address of the value
/// and the value's size. The library promises `result == 0` exactly when
/// `value` is not null.
#[derive(Debug, Clone, Copy, PartialEq, Eq, Structural)]
pub struct BlsctRetVal {
    pub result: u8,
    pub value: usize,
    pub value_size: usize,
}

/// What batch verification returns.
#[derive(Debug, Clone, Copy, PartialEq, Eq, Structural)]
pub struct BlsctBoolRetVal {
    pub result: u8,
    pub value: bool,
}

/// What amount recovery returns; `value` is the address of the result
/// vector.
#[derive(Debug, Clone, Copy, PartialEq, Eq, Structural)]
pub struct BlsctAmountsRetVal {
    pub result: u8,
    pub value: usize,
}

/// What the transaction builder returns: the built transaction on success,
/// else the index of the first amount it refused.
#[derive(Debug, Clone, Copy, PartialEq, Eq, Structural)]
pub struct BlsctCTxRetVal {
    pub result: u8,
    pub ctx: usize,
    pub in_amount_err_index: usize,
    pub out_amount_err_index: usize,
}

/// One request of amount recovery: a range proof, its size, and the nonce.
#[derive(Debug, Clone, Copy, PartialEq, Eq, Structural)]
pub struct BlsctAmountRecoveryReq {
    pub range_proof: usize,
    pub range_proof_size: usize,
    pub nonce: usize,
}

#[derive(Debug, Clone, Copy, PartialEq, Eq, Structural)]
pub enum AddressEncoding {
    Bech32,
    Bech32M,
}

#[derive(Debug, Clone, Copy, PartialEq, Eq, Structural)]
pub enum TxOutputType {
    Normal,
    StakedCommitment,
}

/// The fields of a transaction input, as the native accessors give them.
#[derive(Debug, Clone, Copy)]
pub struct BlsctTxIn {
    pub amount: u64,
    pub gamma: u64,
    pub spending_key: BlsctScalar,
    pub token_id: BlsctTokenId,
    pub out_point: BlsctOutPoint,
    pub staked_commitment: bool,
    pub rbf: bool,
}

/// The fields of a transaction output, as the native accessors give them.
#[derive(Debug, Clone, Copy)]
pub struct BlsctTxOut {
    pub dest: BlsctSubAddr,
    pub amount: u64,
    pub memo_c_str: [u8; MEMO_BUF_SIZE],
    pub token_id: BlsctTokenId,
    pub output_type: TxOutputType,
    pub min_stake: u64,
}

} // verus!
