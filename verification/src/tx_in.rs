//! Transaction inputs, as given to the builder.

use vstd::prelude::*;
use crate::blsct_obj::BlsctObj;
use crate::blsct_obj::Error;
use crate::blsct_obj::ObjView;
use crate::blsct_obj::Release;
use crate::blsct_obj::read_retval;
use crate::blsct_obj::sound;
use crate::blsct_serde::ObjKind;
use crate::ffi::BlsctRetVal;
use crate::ffi::BlsctTxIn;

verus! {

/// A transaction input, built by the native library from an amount, keys and an out point.
#[derive(Debug)]
pub struct TxIn {
    obj: BlsctObj,
}

impl View for TxIn {
    type V = ObjView;

    /// What the value owns: the view of the handle that it is built on.
    closed spec fn view(&self) -> ObjView {
        self.obj@
    }
}

impl TxIn {
    /// The native type of the value.
    pub fn kind() -> (kind: ObjKind)
        ensures
            kind == ObjKind::TxIn,
    {
        ObjKind::TxIn
    }

    /// Reads the envelope of a native call that makes a transaction input.
    pub fn from_retval(rv: Option<BlsctRetVal>) -> (res: Result<Self, Error>)
        requires
            sound(rv),
        ensures
            match read_retval(rv) {
                Ok((ptr, size)) => res matches Ok(v) && v@.owns(ptr, size, None),
                Err(e) => res == Err::<Self, Error>(e),
            },
    {
        match BlsctObj::from_retval(rv) {
            Ok(obj) => Ok(TxIn { obj }),
            Err(e) => Err(e),
        }
    }

    pub fn from(obj: BlsctObj) -> (v: Self)
        ensures
            v@ == obj@,
    {
        TxIn { obj }
    }

    /// The address of the native object, which is never null.
    pub fn value(&self) -> (ptr: usize)
        ensures
            ptr == self@.ptr,
            ptr != 0,
    {
        self.obj.as_ptr()
    }

    /// The size of the native object.
    pub fn size(&self) -> (n: usize)
        ensures
            n == self@.size,
    {
        self.obj.size()
    }

    /// Equality of two inputs by their parts, as read by the native
    /// accessors. Amounts and flags are compared as they are. The spending
    /// keys are scalars, so for them the answer of the native scalar
    /// equality is given; for the token identifiers and the out points the
    /// outcome of their own equalities is given.
    pub fn eq(
        a: &BlsctTxIn,
        b: &BlsctTxIn,
        spending_keys: i32,
        token_ids: bool,
        out_points: bool,
    ) -> (same: bool)
        ensures
            same == (a.amount == b.amount && a.gamma == b.gamma && spending_keys != 0 && token_ids
                && out_points && a.staked_commitment == b.staked_commitment && a.rbf == b.rbf),
    {
        a.amount == b.amount && a.gamma == b.gamma && spending_keys != 0 && token_ids
            && out_points && a.staked_commitment == b.staked_commitment && a.rbf == b.rbf
    }

    /// Gives the value up: the one release that is owed for it.
    pub fn release(self) -> (r: Release)
        ensures
            r == self@.owed(),
    {
        self.obj.release()
    }
}

} // verus!
