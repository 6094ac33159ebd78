//! Transaction outputs, as given to the builder.

use vstd::prelude::*;
use vstd::utf8::encode_utf8;
use vstd::utf8::valid_utf8;
use crate::blsct_obj::BlsctObj;
use crate::blsct_obj::Error;
use crate::blsct_obj::ObjView;
use crate::blsct_obj::Release;
use crate::blsct_obj::read_retval;
use crate::blsct_obj::same_bytes;
use crate::blsct_obj::sound;
use crate::blsct_serde::ObjKind;
use crate::blsct_serde::c_str_bytes;
use crate::blsct_serde::c_str_of;
use crate::blsct_serde::lemma_c_str_of;
use crate::blsct_serde;
use crate::ffi::BlsctRetVal;
use crate::ffi::BlsctTxOut;
use crate::ffi::MAX_MEMO_LEN;
use crate::ffi::MEMO_BUF_SIZE;

verus! {

/// A transaction output, built by the native library from a destination, an amount and a memo.
#[derive(Debug)]
pub struct TxOut {
    obj: BlsctObj,
}

impl View for TxOut {
    type V = ObjView;

    /// What the value owns: the view of the handle that it is built on.
    closed spec fn view(&self) -> ObjView {
        self.obj@
    }
}

impl TxOut {
    /// The native type of the value.
    pub fn kind() -> (kind: ObjKind)
        ensures
            kind == ObjKind::TxOut,
    {
        ObjKind::TxOut
    }

    /// Reads the envelope of a native call that makes a transaction output.
    pub fn from_retval(rv: Option<BlsctRetVal>) -> (res: Result<Self, Error>)
        requires
            sound(rv),
        ensures
            match read_retval(rv) {
                Ok((ptr, size)) => res matches Ok(v) && v@.owns(ptr, size, None),
                Err(e) => res == Err::<Self, Error>(e),
            },
    {
        match BlsctObj::from_retval(rv) {
            Ok(obj) => Ok(TxOut { obj }),
            Err(e) => Err(e),
        }
    }

    pub fn from(obj: BlsctObj) -> (v: Self)
        ensures
            v@ == obj@,
    {
        TxOut { obj }
    }

    /// The address of the native object, which is never null.
    pub fn value(&self) -> (ptr: usize)
        ensures
            ptr == self@.ptr,
            ptr != 0,
    {
        self.obj.as_ptr()
    }

    /// The size of the native object.
    pub fn size(&self) -> (n: usize)
        ensures
            n == self@.size,
    {
        self.obj.size()
    }

    /// The memo as the C string that the native builder takes, terminator
    /// included, or the place of a zero byte inside the memo.
    pub fn memo_c_str(memo: &str) -> (res: Result<Vec<u8>, blsct_serde::Error>)
        ensures
            res matches Ok(c) ==> !encode_utf8(memo@).contains(0u8) && c@ == encode_utf8(
                memo@,
            ).push(0u8),
            res matches Err(e) ==> (e matches blsct_serde::Error::InteriorNul(at) && at
                < encode_utf8(memo@).len() && encode_utf8(memo@)[at as int] == 0 && forall|k: int|
                0 <= k < at ==> encode_utf8(memo@)[k] != 0),
    {
        blsct_serde::to_c_string(memo)
    }

    /// The memo of an output, given the bytes of the C string that the
    /// native accessor points to: they have to be UTF-8.
    pub fn memo(c_str: Vec<u8>) -> (res: Result<String, blsct_serde::Error>)
        ensures
            valid_utf8(c_str@) ==> (res matches Ok(s) && encode_utf8(s@) == c_str@),
            !valid_utf8(c_str@) ==> res == Err::<String, blsct_serde::Error>(
                blsct_serde::Error::InvalidUtf8,
            ),
    {
        blsct_serde::from_c_string(c_str)
    }

    /// The buffer that holds a memo of at most a hundred bytes as a C
    /// string: the memo, then zeros to the end. A longer memo gets no
    /// buffer. A memo without a zero byte is read back from the buffer as it
    /// was.
    pub fn memo_buf(memo: &[u8]) -> (res: Option<[u8; MEMO_BUF_SIZE]>)
        ensures
            memo@.len() > MAX_MEMO_LEN ==> res.is_none(),
            memo@.len() <= MAX_MEMO_LEN ==> (res matches Some(buf) && (forall|i: int|
                0 <= i < MEMO_BUF_SIZE ==> buf@[i] == (if i < memo@.len() {
                    memo@[i]
                } else {
                    0u8
                })) && (!memo@.contains(0u8) ==> c_str_of(buf@) == memo@)),
    {
        if memo.len() > MAX_MEMO_LEN {
            return None;
        }
        let mut buf: [u8; MEMO_BUF_SIZE] = [0u8; MEMO_BUF_SIZE];
        let mut i: usize = 0;
        while i < memo.len()
            invariant
                i <= memo@.len() <= MAX_MEMO_LEN,
                forall|k: int| 0 <= k < i ==> buf@[k] == memo@[k],
                forall|k: int| i <= k < MEMO_BUF_SIZE ==> buf@[k] == 0u8,
            decreases memo@.len() - i,
        {
            buf[i] = memo[i];
            i += 1;
        }
        proof {
            if !memo@.contains(0u8) {
                assert forall|k: int| 0 <= k < memo@.len() implies buf@[k] != 0 by {
                    assert(memo@.contains(memo@[k]));
                }
                lemma_c_str_of(buf@, memo@.len() as int);
                assert(buf@.take(memo@.len() as int) =~= memo@);
            }
        }
        Some(buf)
    }

    /// Equality of two outputs by their parts, as read by the native
    /// accessors. The destinations are compared byte by byte and the memos
    /// as C strings, up to the first zero byte of each buffer; for the token
    /// identifiers the outcome of their own equality is given.
    pub fn eq(a: &BlsctTxOut, b: &BlsctTxOut, token_ids: bool) -> (same: bool)
        ensures
            same == (a.dest@ == b.dest@ && a.amount == b.amount && c_str_of(a.memo_c_str@)
                == c_str_of(b.memo_c_str@) && token_ids && a.output_type == b.output_type
                && a.min_stake == b.min_stake),
    {
        let memo_a = c_str_bytes(a.memo_c_str.as_slice());
        let memo_b = c_str_bytes(b.memo_c_str.as_slice());
        same_bytes(a.dest.as_slice(), b.dest.as_slice()) && a.amount == b.amount && same_bytes(
            memo_a.as_slice(),
            memo_b.as_slice(),
        ) && token_ids && a.output_type == b.output_type && a.min_stake == b.min_stake
    }

    /// Gives the value up: the one release that is owed for it.
    pub fn release(self) -> (r: Release)
        ensures
            r == self@.owed(),
    {
        self.obj.release()
    }
}

} // verus!
