//! Token identifiers.

use vstd::prelude::*;
use crate::blsct_obj::BlsctObj;
use crate::blsct_obj::Error;
use crate::blsct_obj::ObjView;
use crate::blsct_obj::Release;
use crate::blsct_obj::read_retval;
use crate::blsct_obj::sound;
use crate::blsct_serde::ObjKind;
use crate::ffi::BlsctRetVal;
use crate::ffi::TOKEN_ID_SIZE;

verus! {

/// A token identifier: a token number and a sub-identifier.
#[derive(Debug)]
pub struct TokenId {
    obj: BlsctObj,
}

impl View for TokenId {
    type V = ObjView;

    /// What the value owns: the view of the handle that it is built on.
    closed spec fn view(&self) -> ObjView {
        self.obj@
    }
}

impl TokenId {
    /// The native type of the value.
    pub fn kind() -> (kind: ObjKind)
        ensures
            kind == ObjKind::TokenId,
    {
        ObjKind::TokenId
    }

    /// Reads the envelope of a native call that makes a token identifier.
    pub fn from_retval(rv: Option<BlsctRetVal>) -> (res: Result<Self, Error>)
        requires
            sound(rv),
        ensures
            match read_retval(rv) {
                Ok((ptr, size)) => res matches Ok(v) && v@.owns(ptr, size, None),
                Err(e) => res == Err::<Self, Error>(e),
            },
    {
        match BlsctObj::from_retval(rv) {
            Ok(obj) => Ok(TokenId { obj }),
            Err(e) => Err(e),
        }
    }

    /// Takes over a token identifier that a native call returned by its address alone.
    pub fn from_c_obj(c_obj: usize) -> (v: Self)
        requires
            c_obj != 0,
        ensures
            v@.owns(c_obj, TOKEN_ID_SIZE, None),
    {
        TokenId { obj: BlsctObj::from_c_obj(ObjKind::TokenId, c_obj) }
    }

    pub fn from(obj: BlsctObj) -> (v: Self)
        ensures
            v@ == obj@,
    {
        TokenId { obj }
    }

    /// The address of the native object, which is never null.
    pub fn value(&self) -> (ptr: usize)
        ensures
            ptr == self@.ptr,
            ptr != 0,
    {
        self.obj.as_ptr()
    }

    /// The size of the native object.
    pub fn size(&self) -> (n: usize)
        ensures
            n == self@.size,
    {
        self.obj.size()
    }

    /// Equality of two token identifiers, given the token and the
    /// sub-identifier that the native accessors read from each.
    pub fn eq(token: u64, subid: u64, other_token: u64, other_subid: u64) -> (same: bool)
        ensures
            same == (token == other_token && subid == other_subid),
    {
        token == other_token && subid == other_subid
    }

    /// Gives the value up: the one release that is owed for it.
    pub fn release(self) -> (r: Release)
        ensures
            r == self@.owed(),
    {
        self.obj.release()
    }
}

} // verus!
