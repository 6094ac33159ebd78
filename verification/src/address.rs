//! Addresses: the text form of a double public key.

use vstd::prelude::*;
use vstd::utf8::encode_utf8;
use vstd::utf8::valid_utf8;
use crate::blsct_obj;
use crate::blsct_obj::Deallocator;
use crate::blsct_obj::Release;
use crate::blsct_serde;
use crate::ffi::BlsctRetVal;
use crate::keys::double_public_key::DoublePublicKey;
use crate::util::decimal_text;
use crate::util::numbered;

verus! {

/// Why an address was not encoded or decoded.
#[derive(Debug, Clone, Copy, PartialEq, Eq, Structural)]
pub enum Error {
    /// The native library returned null in place of an envelope.
    FailedToAllocateMemory,
    /// The native library refused the double public key.
    FailedToEncodeAddress,
    /// The native library refused the address.
    FailedToDecodeAddress,
    /// The address holds a zero byte at this position.
    FailedToConstructCString(usize),
    /// The address that the native library returned is not UTF-8.
    InvalidUtf8,
}

impl Error {
    pub open spec fn spec_message(self) -> Seq<char> {
        match self {
            Error::FailedToAllocateMemory => "Failed to allocate memory for BlsctRetVal"@,
            Error::FailedToEncodeAddress => "Failed to encode address"@,
            Error::FailedToDecodeAddress => "Failed to decode address"@,
            Error::FailedToConstructCString(at) => "Failed to construct CString: nul byte at "@
                + decimal_text(at as nat),
            Error::InvalidUtf8 => "Failed to read address: not UTF-8"@,
        }
    }

    /// The error in words.
    pub fn message(self) -> (text: String)
        ensures
            text@ == self.spec_message(),
    {
        match self {
            Error::FailedToAllocateMemory => String::from_str(
                "Failed to allocate memory for BlsctRetVal",
            ),
            Error::FailedToEncodeAddress => String::from_str("Failed to encode address"),
            Error::FailedToDecodeAddress => String::from_str("Failed to decode address"),
            Error::FailedToConstructCString(at) => numbered(
                "Failed to construct CString: nul byte at ",
                at,
            ),
            Error::InvalidUtf8 => String::from_str("Failed to read address: not UTF-8"),
        }
    }
}

pub struct Address();

/// What is freed after encoding: nothing for a null envelope, else the
/// envelope at `at` and, where the call succeeded, first the text it
/// carries.
pub open spec fn encode_releases(rv: Option<BlsctRetVal>, at: usize) -> Seq<Release> {
    match rv {
        None => Seq::empty(),
        Some(e) => if e.result != 0 {
            seq![Release { ptr: at, by: Deallocator::FreeObj }]
        } else {
            seq![
                Release { ptr: e.value, by: Deallocator::FreeObj },
                Release { ptr: at, by: Deallocator::FreeObj },
            ]
        },
    }
}

impl Address {
    /// Reads how encoding ended. `rv` is the envelope, found at the address
    /// `at`, and `addr` the bytes of the C string that it carries, which
    /// count only for a zero status. Beside the result stands what is to be
    /// freed.
    pub fn encode(rv: Option<BlsctRetVal>, at: usize, addr: Vec<u8>) -> (res: (
        Result<String, Error>,
        Vec<Release>,
    ))
        ensures
            res.1@ == encode_releases(rv, at),
            rv.is_none() ==> res.0 == Err::<String, Error>(Error::FailedToAllocateMemory),
            rv matches Some(e) ==> (e.result != 0 ==> res.0 == Err::<String, Error>(
                Error::FailedToEncodeAddress,
            )),
            rv matches Some(e) ==> (e.result == 0 && !valid_utf8(addr@) ==> res.0 == Err::<
                String,
                Error,
            >(Error::InvalidUtf8)),
            rv matches Some(e) ==> (e.result == 0 && valid_utf8(addr@) ==> (res.0 matches Ok(s)
                && encode_utf8(s@) == addr@)),
    {
        let mut releases: Vec<Release> = Vec::new();
        match rv {
            None => {
                assert(releases@ =~= encode_releases(rv, at));
                (Err(Error::FailedToAllocateMemory), releases)
            },
            Some(e) => {
                if e.result != 0 {
                    releases.push(Release { ptr: at, by: Deallocator::FreeObj });
                    assert(releases@ =~= encode_releases(rv, at));
                    (Err(Error::FailedToEncodeAddress), releases)
                } else {
                    releases.push(Release { ptr: e.value, by: Deallocator::FreeObj });
                    releases.push(Release { ptr: at, by: Deallocator::FreeObj });
                    assert(releases@ =~= encode_releases(rv, at));
                    match blsct_serde::from_c_string(addr) {
                        Ok(s) => (Ok(s), releases),
                        Err(_) => (Err(Error::InvalidUtf8), releases),
                    }
                }
            },
        }
    }

    /// The address as the C string that the native decoder takes,
    /// terminator included, or the place of a zero byte inside it.
    pub fn decode_request(addr_str: &str) -> (res: Result<Vec<u8>, Error>)
        ensures
            res matches Ok(c) ==> !encode_utf8(addr_str@).contains(0u8) && c@ == encode_utf8(
                addr_str@,
            ).push(0u8),
            res matches Err(e) ==> (e matches Error::FailedToConstructCString(at) && at
                < encode_utf8(addr_str@).len() && encode_utf8(addr_str@)[at as int] == 0
                && forall|k: int| 0 <= k < at ==> encode_utf8(addr_str@)[k] != 0),
    {
        match blsct_serde::c_string(addr_str) {
            Ok(c) => Ok(c),
            Err(at) => Err(Error::FailedToConstructCString(at)),
        }
    }

    /// Reads the envelope of the native decoder. The envelope is the
    /// caller's to free whenever it is not null.
    pub fn decode(rv: Option<BlsctRetVal>) -> (res: Result<DoublePublicKey, Error>)
        requires
            blsct_obj::sound(rv),
        ensures
            rv.is_none() ==> res == Err::<DoublePublicKey, Error>(Error::FailedToAllocateMemory),
            rv matches Some(e) ==> (e.result != 0 ==> res == Err::<DoublePublicKey, Error>(
                Error::FailedToDecodeAddress,
            )),
            rv matches Some(e) ==> (e.result == 0 ==> (res matches Ok(dpk) && dpk@.owns(
                e.value,
                e.value_size,
                None,
            ))),
    {
        match DoublePublicKey::from_retval(rv) {
            Ok(dpk) => Ok(dpk),
            Err(blsct_obj::Error::FailedToAllocateMemory) => Err(Error::FailedToAllocateMemory),
            Err(blsct_obj::Error::FailedToGenerateObject(_)) => Err(Error::FailedToDecodeAddress),
        }
    }
}

} // verus!
