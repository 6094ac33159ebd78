//! Points of the curve.

use vstd::prelude::*;
use crate::blsct_obj::BlsctObj;
use crate::blsct_obj::Error;
use crate::blsct_obj::ObjView;
use crate::blsct_obj::Release;
use crate::blsct_obj::read_retval;
use crate::blsct_obj::sound;
use crate::blsct_serde::ObjKind;
use crate::ffi::BlsctRetVal;
use crate::ffi::POINT_SIZE;

verus! {

/// A curve point: forty-eight bytes owned by the native library.
#[derive(Debug)]
pub struct Point {
    obj: BlsctObj,
}

impl View for Point {
    type V = ObjView;

    /// What the value owns: the view of the handle that it is built on.
    closed spec fn view(&self) -> ObjView {
        self.obj@
    }
}

impl Point {
    /// The native type of the value.
    pub fn kind() -> (kind: ObjKind)
        ensures
            kind == ObjKind::Point,
    {
        ObjKind::Point
    }

    /// Reads the envelope of a native call that makes a point.
    pub fn from_retval(rv: Option<BlsctRetVal>) -> (res: Result<Self, Error>)
        requires
            sound(rv),
        ensures
            match read_retval(rv) {
                Ok((ptr, size)) => res matches Ok(v) && v@.owns(ptr, size, None),
                Err(e) => res == Err::<Self, Error>(e),
            },
    {
        match BlsctObj::from_retval(rv) {
            Ok(obj) => Ok(Point { obj }),
            Err(e) => Err(e),
        }
    }

    /// Takes over a point that a native call returned by its address alone.
    pub fn from_c_obj(c_obj: usize) -> (v: Self)
        requires
            c_obj != 0,
        ensures
            v@.owns(c_obj, POINT_SIZE, None),
    {
        Point { obj: BlsctObj::from_c_obj(ObjKind::Point, c_obj) }
    }

    pub fn from(obj: BlsctObj) -> (v: Self)
        ensures
            v@ == obj@,
    {
        Point { obj }
    }

    /// The address of the native object, which is never null.
    pub fn value(&self) -> (ptr: usize)
        ensures
            ptr == self@.ptr,
            ptr != 0,
    {
        self.obj.as_ptr()
    }

    /// The size of the native object.
    pub fn size(&self) -> (n: usize)
        ensures
            n == self@.size,
    {
        self.obj.size()
    }

    /// Equality of two values, given the answer of the native equality
    /// function of the type: it says yes by any number but zero.
    pub fn eq(answer: i32) -> (same: bool)
        ensures
            same == (answer != 0),
    {
        answer != 0
    }

    /// Reads the answer of the native validity check of a point: it says yes
    /// by any number but zero.
    pub fn is_valid(answer: i32) -> (valid: bool)
        ensures
            valid == (answer != 0),
    {
        answer != 0
    }

    /// Gives the value up: the one release that is owed for it.
    pub fn release(self) -> (r: Release)
        ensures
            r == self@.owed(),
    {
        self.obj.release()
    }
}

} // verus!
