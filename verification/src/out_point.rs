//! Out points.

use vstd::prelude::*;
use crate::blsct_obj::BlsctObj;
use crate::blsct_obj::Error;
use crate::blsct_obj::ObjView;
use crate::blsct_obj::Release;
use crate::blsct_obj::read_retval;
use crate::blsct_obj::sound;
use crate::blsct_serde::ObjKind;
use crate::ffi::BlsctRetVal;
use crate::ffi::OUT_POINT_SIZE;

verus! {

/// An out point: a transaction identifier and the index of an output of it.
#[derive(Debug)]
pub struct OutPoint {
    obj: BlsctObj,
}

impl View for OutPoint {
    type V = ObjView;

    /// What the value owns: the view of the handle that it is built on.
    closed spec fn view(&self) -> ObjView {
        self.obj@
    }
}

impl OutPoint {
    /// The native type of the value.
    pub fn kind() -> (kind: ObjKind)
        ensures
            kind == ObjKind::OutPoint,
    {
        ObjKind::OutPoint
    }

    /// Reads the envelope of a native call that makes an out point.
    pub fn from_retval(rv: Option<BlsctRetVal>) -> (res: Result<Self, Error>)
        requires
            sound(rv),
        ensures
            match read_retval(rv) {
                Ok((ptr, size)) => res matches Ok(v) && v@.owns(ptr, size, None),
                Err(e) => res == Err::<Self, Error>(e),
            },
    {
        match BlsctObj::from_retval(rv) {
            Ok(obj) => Ok(OutPoint { obj }),
            Err(e) => Err(e),
        }
    }

    /// Takes over an out point that a native call returned by its address alone.
    pub fn from_c_obj(c_obj: usize) -> (v: Self)
        requires
            c_obj != 0,
        ensures
            v@.owns(c_obj, OUT_POINT_SIZE, None),
    {
        OutPoint { obj: BlsctObj::from_c_obj(ObjKind::OutPoint, c_obj) }
    }

    pub fn from(obj: BlsctObj) -> (v: Self)
        ensures
            v@ == obj@,
    {
        OutPoint { obj }
    }

    /// The address of the native object, which is never null.
    pub fn value(&self) -> (ptr: usize)
        ensures
            ptr == self@.ptr,
            ptr != 0,
    {
        self.obj.as_ptr()
    }

    /// The size of the native object.
    pub fn size(&self) -> (n: usize)
        ensures
            n == self@.size,
    {
        self.obj.size()
    }

    /// Equality of two out points, given the memory that each one owns and
    /// the output index that the native accessor reads from each.
    pub fn eq(&self, mine: &[u8], index: u32, other: &Self, theirs: &[u8], other_index: u32) -> (same:
        bool)
        requires
            mine@.len() == self@.size,
            theirs@.len() == other@.size,
        ensures
            same == (mine@ == theirs@ && index == other_index),
    {
        self.obj.eq(mine, &other.obj, theirs) && index == other_index
    }

    /// Gives the value up: the one release that is owed for it.
    pub fn release(self) -> (r: Release)
        ensures
            r == self@.owed(),
    {
        self.obj.release()
    }
}

} // verus!
