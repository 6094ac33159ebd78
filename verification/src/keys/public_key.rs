//! Public keys.

use vstd::prelude::*;
use crate::blsct_obj::BlsctObj;
use crate::blsct_obj::Error;
use crate::blsct_obj::ObjView;
use crate::blsct_obj::Release;
use crate::blsct_obj::read_retval;
use crate::blsct_obj::sound;
use crate::blsct_serde::ObjKind;
use crate::ffi::BlsctPoint;
use crate::ffi::BlsctRetVal;
use crate::ffi::POINT_SIZE;
use crate::ffi::PUBLIC_KEY_SIZE;
use crate::util::array_of_hex;
use crate::util::build_succ_blsct_ret_val;
use crate::util::c_hex_str_to_array;
use crate::util;

verus! {

/// A public key: forty-eight bytes owned by the native library.
#[derive(Debug)]
pub struct PublicKey {
    obj: BlsctObj,
}

impl View for PublicKey {
    type V = ObjView;

    /// What the value owns: the view of the handle that it is built on.
    closed spec fn view(&self) -> ObjView {
        self.obj@
    }
}

impl PublicKey {
    /// The native type of the value.
    pub fn kind() -> (kind: ObjKind)
        ensures
            kind == ObjKind::PublicKey,
    {
        ObjKind::PublicKey
    }

    /// Reads the envelope of a native call that makes a public key.
    pub fn from_retval(rv: Option<BlsctRetVal>) -> (res: Result<Self, Error>)
        requires
            sound(rv),
        ensures
            match read_retval(rv) {
                Ok((ptr, size)) => res matches Ok(v) && v@.owns(ptr, size, None),
                Err(e) => res == Err::<Self, Error>(e),
            },
    {
        match BlsctObj::from_retval(rv) {
            Ok(obj) => Ok(PublicKey { obj }),
            Err(e) => Err(e),
        }
    }

    /// Takes over a public key that a native call returned by its address alone.
    pub fn from_c_obj(c_obj: usize) -> (v: Self)
        requires
            c_obj != 0,
        ensures
            v@.owns(c_obj, PUBLIC_KEY_SIZE, None),
    {
        PublicKey { obj: BlsctObj::from_c_obj(ObjKind::PublicKey, c_obj) }
    }

    pub fn from(obj: BlsctObj) -> (v: Self)
        ensures
            v@ == obj@,
    {
        PublicKey { obj }
    }

    /// The address of the native object, which is never null.
    pub fn value(&self) -> (ptr: usize)
        ensures
            ptr == self@.ptr,
            ptr != 0,
    {
        self.obj.as_ptr()
    }

    /// The size of the native object.
    pub fn size(&self) -> (n: usize)
        ensures
            n == self@.size,
    {
        self.obj.size()
    }

    /// Equality of two values, given the memory each one owns: byte by byte.
    pub fn eq(&self, mine: &[u8], other: &Self, theirs: &[u8]) -> (same: bool)
        requires
            mine@.len() == self@.size,
            theirs@.len() == other@.size,
        ensures
            same == (mine@ == theirs@),
    {
        self.obj.eq(mine, &other.obj, theirs)
    }

    /// First half of deserializing a public key, which travels as the hex
    /// text of its point: the bytes of the point. The native library turns
    /// them into a public key.
    pub fn deserialize(hex: &str) -> (res: Result<BlsctPoint, util::Error>)
        ensures
            match array_of_hex(hex@, POINT_SIZE as int) {
                Ok(bytes) => res matches Ok(a) && a@ == bytes,
                Err(e) => res == Err::<BlsctPoint, util::Error>(e),
            },
    {
        c_hex_str_to_array::<POINT_SIZE>(hex)
    }

    /// Second half of deserializing a public key: the envelope that carries
    /// the public key at `pub_key`. `slot` is the address that the native
    /// allocator gave for the envelope.
    pub fn deserialized(pub_key: usize, slot: usize) -> (res: Result<BlsctRetVal, Error>)
        ensures
            slot == 0 ==> res == Err::<BlsctRetVal, Error>(Error::FailedToAllocateMemory),
            slot != 0 ==> res == Ok::<BlsctRetVal, Error>(
                (BlsctRetVal { result: 0, value: pub_key, value_size: PUBLIC_KEY_SIZE }),
            ),
    {
        build_succ_blsct_ret_val::<PUBLIC_KEY_SIZE>(pub_key, slot)
    }

    /// Gives the value up: the one release that is owed for it.
    pub fn release(self) -> (r: Release)
        ensures
            r == self@.owed(),
    {
        self.obj.release()
    }
}

} // verus!
