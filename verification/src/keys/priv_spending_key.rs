//! Private spending keys.

use vstd::prelude::*;
use crate::blsct_obj::BlsctObj;
use crate::blsct_obj::ObjView;
use crate::blsct_obj::Release;
use crate::ffi::SCALAR_SIZE;
use crate::scalar::Scalar;

verus! {

/// The private spending key of one sub-address.
#[derive(Debug)]
pub struct PrivSpendingKey(Scalar);

impl View for PrivSpendingKey {
    type V = ObjView;

    /// What the key owns: the view of the scalar that it is.
    closed spec fn view(&self) -> ObjView {
        self.0@
    }
}

impl PrivSpendingKey {
    /// Takes over the scalar that a native derivation returned by its
    /// address.
    pub fn from_c_obj(c_obj: usize) -> (key: Self)
        requires
            c_obj != 0,
        ensures
            key@.owns(c_obj, SCALAR_SIZE, None),
    {
        PrivSpendingKey(Scalar::from_c_obj(c_obj))
    }

    pub fn from(obj: BlsctObj) -> (key: Self)
        ensures
            key@ == obj@,
    {
        PrivSpendingKey(Scalar::from(obj))
    }

    /// The address of the native scalar, which is never null.
    pub fn value(&self) -> (ptr: usize)
        ensures
            ptr == self@.ptr,
            ptr != 0,
    {
        self.0.value()
    }

    /// The size of the native scalar.
    pub fn size(&self) -> (n: usize)
        ensures
            n == self@.size,
    {
        self.0.size()
    }

    /// Gives the key up: the one release that is owed for it.
    pub fn release(self) -> (r: Release)
        ensures
            r == self@.owed(),
    {
        self.0.release()
    }
}

} // verus!
