//! Key identifiers.

use vstd::prelude::*;
use crate::blsct_obj::BlsctObj;
use crate::blsct_obj::Error;
use crate::blsct_obj::ObjView;
use crate::blsct_obj::Release;
use crate::blsct_obj::read_retval;
use crate::blsct_obj::sound;
use crate::blsct_serde::ObjKind;
use crate::ffi::BlsctRetVal;
use crate::ffi::KEY_ID_SIZE;

verus! {

/// The twenty-byte identifier of a key.
#[derive(Debug)]
pub struct HashId {
    obj: BlsctObj,
}

impl View for HashId {
    type V = ObjView;

    /// What the value owns: the view of the handle that it is built on.
    closed spec fn view(&self) -> ObjView {
        self.obj@
    }
}

impl HashId {
    /// The native type of the value.
    pub fn kind() -> (kind: ObjKind)
        ensures
            kind == ObjKind::HashId,
    {
        ObjKind::HashId
    }

    /// Reads the envelope of a native call that makes a key identifier.
    pub fn from_retval(rv: Option<BlsctRetVal>) -> (res: Result<Self, Error>)
        requires
            sound(rv),
        ensures
            match read_retval(rv) {
                Ok((ptr, size)) => res matches Ok(v) && v@.owns(ptr, size, None),
                Err(e) => res == Err::<Self, Error>(e),
            },
    {
        match BlsctObj::from_retval(rv) {
            Ok(obj) => Ok(HashId { obj }),
            Err(e) => Err(e),
        }
    }

    /// Takes over a key identifier that a native call returned by its address alone.
    pub fn from_c_obj(c_obj: usize) -> (v: Self)
        requires
            c_obj != 0,
        ensures
            v@.owns(c_obj, KEY_ID_SIZE, None),
    {
        HashId { obj: BlsctObj::from_c_obj(ObjKind::HashId, c_obj) }
    }

    pub fn from(obj: BlsctObj) -> (v: Self)
        ensures
            v@ == obj@,
    {
        HashId { obj }
    }

    /// The address of the native object, which is never null.
    pub fn value(&self) -> (ptr: usize)
        ensures
            ptr == self@.ptr,
            ptr != 0,
    {
        self.obj.as_ptr()
    }

    /// The size of the native object.
    pub fn size(&self) -> (n: usize)
        ensures
            n == self@.size,
    {
        self.obj.size()
    }

    /// Equality of two values, given the memory each one owns: byte by byte.
    pub fn eq(&self, mine: &[u8], other: &Self, theirs: &[u8]) -> (same: bool)
        requires
            mine@.len() == self@.size,
            theirs@.len() == other@.size,
        ensures
            same == (mine@ == theirs@),
    {
        self.obj.eq(mine, &other.obj, theirs)
    }

    /// Gives the value up: the one release that is owed for it.
    pub fn release(self) -> (r: Release)
        ensures
            r == self@.owed(),
    {
        self.obj.release()
    }
}

} // verus!
