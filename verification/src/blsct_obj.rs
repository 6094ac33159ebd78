//! The owning handle of one native allocation, and how a result envelope
//! becomes one.

use vstd::prelude::*;
use vstd::string::StringSliceAdditionalSpecFns;
use vstd::utf8::encode_utf8;
use vstd::utf8::valid_utf8;
use crate::blsct_serde;
use crate::blsct_serde::DeserializeCall;
use crate::blsct_serde::ObjKind;
use crate::ffi::BlsctRetVal;
use crate::util::decimal_text;
use crate::util::numbered;

verus! {

/// Why no handle came out of a native call.
#[derive(Debug, Clone, Copy, PartialEq, Eq, Structural)]
pub enum Error {
    /// The native allocator returned null in place of an envelope.
    FailedToAllocateMemory,
    /// The call reported this non-zero status.
    FailedToGenerateObject(u8),
}

impl Error {
    pub open spec fn spec_message(self) -> Seq<char> {
        match self {
            Error::FailedToAllocateMemory => "Failed to allocate memory to the object"@,
            Error::FailedToGenerateObject(code) => "Failed to generate object. result code: "@
                + decimal_text(code as nat),
        }
    }

    /// The error in words.
    pub fn message(self) -> (text: String)
        ensures
            text@ == self.spec_message(),
    {
        match self {
            Error::FailedToAllocateMemory => String::from_str(
                "Failed to allocate memory to the object",
            ),
            Error::FailedToGenerateObject(code) => numbered(
                "Failed to generate object. result code: ",
                code as usize,
            ),
        }
    }
}

/// Which native function gives an address back.
#[derive(Debug, Clone, Copy, PartialEq, Eq, Structural)]
pub enum Deallocator {
    /// The library's generic free.
    FreeObj,
    /// The type's own destructor, by its address.
    Custom(usize),
}

/// One call that gives an address back to the native library.
#[derive(Debug, Clone, Copy, PartialEq, Eq, Structural)]
pub struct Release {
    pub ptr: usize,
    pub by: Deallocator,
}

/// Owns one native allocation: its address, its size, and the destructor
/// to call in place of the generic free, if there is one. It cannot be
/// copied; giving it up yields the one release that is owed.
#[derive(Debug)]
pub struct BlsctObj {
    ptr: usize,
    size: usize,
    deallocator: Option<usize>,
}

/// An envelope as the native library promises it: a zero status comes with a
/// value.
pub open spec fn sound(rv: Option<BlsctRetVal>) -> bool {
    rv matches Some(e) ==> (e.result == 0 ==> e.value != 0)
}

/// What an envelope says: the address and size of the value, or why there is
/// none. `None` stands for the null envelope.
pub open spec fn read_retval(rv: Option<BlsctRetVal>) -> Result<(usize, usize), Error> {
    match rv {
        None => Err(Error::FailedToAllocateMemory),
        Some(e) => if e.result != 0 {
            Err(Error::FailedToGenerateObject(e.result))
        } else {
            Ok((e.value, e.value_size))
        },
    }
}

/// What a handle owns, as contracts speak of it.
pub struct ObjView {
    /// The address of the native object.
    pub ptr: usize,
    /// The size of the native object.
    pub size: usize,
    /// The address of the destructor to call in place of the generic free,
    /// if there is one.
    pub deallocator: Option<usize>,
}

impl ObjView {
    /// A handle never holds the null address, nor a null destructor.
    pub open spec fn wf(self) -> bool {
        &&& self.ptr != 0
        &&& self.deallocator matches Some(f) ==> f != 0
    }

    /// The handle owns `ptr`, of `size` bytes, to be released by
    /// `deallocator` or, without one, by the generic free.
    pub open spec fn owns(self, ptr: usize, size: usize, deallocator: Option<usize>) -> bool {
        self.wf() && self == (ObjView { ptr, size, deallocator })
    }

    /// The release that the handle owes.
    pub open spec fn owed(self) -> Release {
        Release {
            ptr: self.ptr,
            by: match self.deallocator {
                Some(f) => Deallocator::Custom(f),
                None => Deallocator::FreeObj,
            },
        }
    }
}

impl View for BlsctObj {
    type V = ObjView;

    closed spec fn view(&self) -> ObjView {
        ObjView { ptr: self.ptr, size: self.size, deallocator: self.deallocator }
    }
}

impl BlsctObj {
    #[verifier::type_invariant]
    spec fn holds_an_object(self) -> bool {
        self.ptr != 0 && (self.deallocator matches Some(f) ==> f != 0)
    }

    pub fn new_with_deallocator(ptr: usize, size: usize, deallocator: Option<usize>) -> (obj: Self)
        requires
            ptr != 0,
            deallocator matches Some(f) ==> f != 0,
        ensures
            obj@.owns(ptr, size, deallocator),
    {
        BlsctObj { ptr, size, deallocator }
    }

    pub fn new(ptr: usize, size: usize) -> (obj: Self)
        requires
            ptr != 0,
        ensures
            obj@.owns(ptr, size, None),
    {
        BlsctObj { ptr, size, deallocator: None }
    }

    /// Reads an envelope. A null envelope is an allocation failure, a
    /// non-zero status is reported with its code, and a zero status hands
    /// over the value with the size the envelope gives. The envelope itself
    /// is to be freed by the caller whenever it was not null.
    pub fn from_retval(rv: Option<BlsctRetVal>) -> (res: Result<Self, Error>)
        requires
            sound(rv),
        ensures
            match read_retval(rv) {
                Ok((ptr, size)) => res matches Ok(obj) && obj@.owns(ptr, size, None),
                Err(e) => res == Err::<Self, Error>(e),
            },
    {
        match rv {
            None => Err(Error::FailedToAllocateMemory),
            Some(e) => {
                if e.result != 0 {
                    Err(Error::FailedToGenerateObject(e.result))
                } else {
                    Ok(BlsctObj { ptr: e.value, size: e.value_size, deallocator: None })
                }
            },
        }
    }

    /// Takes over an address whose size is the one that the type fixes; the
    /// generic free releases it.
    pub fn from_c_obj(kind: ObjKind, c_obj: usize) -> (obj: Self)
        requires
            c_obj != 0,
            kind.spec_static_size().is_some(),
        ensures
            obj@.owns(c_obj, kind.spec_static_size().unwrap(), None),
    {
        let size = match kind.static_size() {
            Some(n) => n,
            None => 0,
        };
        BlsctObj { ptr: c_obj, size, deallocator: None }
    }

    /// Takes over an address whose size is the one given; the generic free
    /// releases it.
    pub fn from_c_obj_and_size(c_obj: usize, size: usize) -> (obj: Self)
        requires
            c_obj != 0,
        ensures
            obj@.owns(c_obj, size, None),
    {
        BlsctObj { ptr: c_obj, size, deallocator: None }
    }

    pub fn size(&self) -> (n: usize)
        ensures
            n == self@.size,
    {
        self.size
    }

    /// The address of the object, which is never null.
    pub fn as_ptr(&self) -> (p: usize)
        ensures
            p == self@.ptr,
            p != 0,
            self@.wf(),
    {
        proof {
            use_type_invariant(self);
        }
        self.ptr
    }

    /// Reads what the native serializer returned: `None` stands for null,
    /// else the bytes of the C string. The text is accepted only as UTF-8.
    /// The C string is the caller's to free whenever it was not null.
    pub fn serialize(c_hex: Option<Vec<u8>>) -> (res: Result<String, blsct_serde::Error>)
        ensures
            c_hex.is_none() ==> res == Err::<String, blsct_serde::Error>(
                blsct_serde::Error::SerializationFailed,
            ),
            c_hex matches Some(b) ==> (valid_utf8(b@) ==> (res matches Ok(s) && encode_utf8(s@)
                == b@)),
            c_hex matches Some(b) ==> (!valid_utf8(b@) ==> res == Err::<String, blsct_serde::Error>(
                blsct_serde::Error::InvalidUtf8,
            )),
    {
        match c_hex {
            None => Err(blsct_serde::Error::SerializationFailed),
            Some(b) => blsct_serde::from_c_string(b),
        }
    }

    /// Prepares the call of the native deserializer of `kind` on `hex`: the
    /// text becomes a C string, which fails on a zero byte inside it, and a
    /// type whose deserializer takes the size gets half the length of the
    /// text. The envelope that the call returns goes to `from_retval`.
    pub fn deserialize(kind: ObjKind, hex: &str) -> (res: Result<
        DeserializeCall,
        blsct_serde::Error,
    >)
        ensures
            res matches Ok(call) ==> !encode_utf8(hex@).contains(0u8) && call.c_hex@
                == encode_utf8(hex@).push(0u8) && call.obj_size == (if kind.spec_sized_codec() {
                Some((encode_utf8(hex@).len() / 2) as usize)
            } else {
                None
            }),
            res matches Err(e) ==> (e matches blsct_serde::Error::InteriorNul(at) && at
                < encode_utf8(hex@).len() && encode_utf8(hex@)[at as int] == 0 && forall|k: int|
                0 <= k < at ==> encode_utf8(hex@)[k] != 0),
    {
        match blsct_serde::to_c_string(hex) {
            Err(e) => Err(e),
            Ok(c_hex) => {
                let ghost n = c_hex.len();
                assert(hex.spec_bytes() == encode_utf8(hex@));
                assert(encode_utf8(hex@).len() + 1 == n);
                let obj_size = if kind.sized_codec() {
                    Some(hex.len() / 2)
                } else {
                    None
                };
                Ok(DeserializeCall { c_hex, obj_size })
            },
        }
    }

    /// Byte-wise equality of two handles, given the memory each one owns:
    /// the sizes agree and so does every byte. It is the right equality only
    /// for a type whose values have one encoding each.
    pub fn eq(&self, mine: &[u8], other: &Self, theirs: &[u8]) -> (same: bool)
        requires
            mine@.len() == self@.size,
            theirs@.len() == other@.size,
        ensures
            same == (mine@ == theirs@),
    {
        if self.size != other.size {
            return false;
        }
        let same = same_bytes(mine, theirs);
        same
    }

    fn owed_now(&self) -> (r: Release)
        ensures
            r == self@.owed(),
    {
        match self.deallocator {
            Some(f) => Release { ptr: self.ptr, by: Deallocator::Custom(f) },
            None => Release { ptr: self.ptr, by: Deallocator::FreeObj },
        }
    }

    /// Gives the handle up. What comes back is the one call that returns the
    /// address to the native library; it names no null address and no null
    /// destructor.
    pub fn release(self) -> (r: Release)
        ensures
            r == self@.owed(),
            r.ptr != 0,
            r.by matches Deallocator::Custom(f) ==> f != 0,
    {
        proof {
            use_type_invariant(&self);
        }
        match self.deallocator {
            Some(f) => Release { ptr: self.ptr, by: Deallocator::Custom(f) },
            None => Release { ptr: self.ptr, by: Deallocator::FreeObj },
        }
    }
}

/// Two memories of the same size that agree in every byte.
pub open spec fn bytes_equal(a: Seq<u8>, b: Seq<u8>) -> bool {
    a.len() == b.len() && forall|i: int| 0 <= i < a.len() ==> a[i] == b[i]
}

/// Whether two byte strings are the same.
pub fn same_bytes(a: &[u8], b: &[u8]) -> (same: bool)
    ensures
        same == (a@ == b@),
        same == bytes_equal(a@, b@),
{
    if a.len() != b.len() {
        return false;
    }
    let mut i: usize = 0;
    while i < a.len()
        invariant
            a@.len() == b@.len(),
            i <= a@.len(),
            forall|k: int| 0 <= k < i ==> a@[k] == b@[k],
        decreases a@.len() - i,
    {
        if a[i] != b[i] {
            return false;
        }
        i += 1;
    }
    assert(a@ =~= b@);
    true
}

/// Byte-wise equality is an equivalence: every value equals itself, two
/// values are equal in either order or in neither, and values of
/// different bytes are unequal both ways.
pub proof fn law_bytes_equality(a: Seq<u8>, b: Seq<u8>, c: Seq<u8>)
    ensures
        bytes_equal(a, a),
        bytes_equal(a, b) == bytes_equal(b, a),
        bytes_equal(a, b) && bytes_equal(b, c) ==> bytes_equal(a, c),
        a != b ==> !bytes_equal(a, b) && !bytes_equal(b, a),
{
    if a.len() == b.len() && (forall|i: int| 0 <= i < a.len() ==> a[i] == b[i]) {
        assert(a =~= b);
    }
    if b.len() == a.len() && (forall|i: int| 0 <= i < b.len() ==> b[i] == a[i]) {
        assert(a =~= b);
    }
}

/// Frees what a native call returned by the generic free, unless it
/// returned null: the rule for envelopes and for C strings, once they have
/// been read.
pub fn free_unless_null(ptr: usize) -> (r: Option<Release>)
    ensures
        ptr == 0 ==> r.is_none(),
        ptr != 0 ==> r == Some(Release { ptr, by: Deallocator::FreeObj }),
{
    if ptr == 0 {
        None
    } else {
        Some(Release { ptr, by: Deallocator::FreeObj })
    }
}

/// Gives up every handle of `handles`: the releases they owe, in order.
pub fn release_all(handles: Vec<BlsctObj>) -> (releases: Vec<Release>)
    ensures
        releases@ == owed_by(handles@),
{
    let mut releases: Vec<Release> = Vec::new();
    let mut i: usize = 0;
    while i < handles.len()
        invariant
            i <= handles@.len(),
            releases@ == owed_by(handles@.take(i as int)),
        decreases handles@.len() - i,
    {
        let r = handles[i].owed_now();
        releases.push(r);
        i += 1;
        assert(releases@ =~= owed_by(handles@.take(i as int)));
    }
    assert(handles@.take(i as int) =~= handles@);
    releases
}

/// The releases that a run of handles owes, one for each, in order.
pub open spec fn owed_by(handles: Seq<BlsctObj>) -> Seq<Release> {
    Seq::new(handles.len(), |i: int| handles[i]@.owed())
}

/// How often `ptr` is given back in `releases`.
pub open spec fn times_released(releases: Seq<Release>, ptr: usize) -> nat
    decreases releases.len(),
{
    if releases.len() == 0 {
        0
    } else {
        let before = times_released(releases.drop_last(), ptr);
        if releases.last().ptr == ptr {
            before + 1
        } else {
            before
        }
    }
}

/// Handles that own different addresses.
pub open spec fn independent(handles: Seq<BlsctObj>) -> bool {
    forall|i: int, j: int|
        0 <= i < handles.len() && 0 <= j < handles.len() && i != j
            ==> handles[i]@.ptr != handles[j]@.ptr
}

proof fn lemma_never_released(releases: Seq<Release>, ptr: usize)
    requires
        forall|i: int| 0 <= i < releases.len() ==> releases[i].ptr != ptr,
    ensures
        times_released(releases, ptr) == 0,
    decreases releases.len(),
{
    if releases.len() > 0 {
        lemma_never_released(releases.drop_last(), ptr);
    }
}

proof fn lemma_released_once(releases: Seq<Release>, k: int)
    requires
        0 <= k < releases.len(),
        forall|i: int, j: int|
            0 <= i < releases.len() && 0 <= j < releases.len() && i != j
                ==> releases[i].ptr != releases[j].ptr,
    ensures
        times_released(releases, releases[k].ptr) == 1,
    decreases releases.len(),
{
    let front = releases.drop_last();
    if k == releases.len() - 1 {
        lemma_never_released(front, releases[k].ptr);
    } else {
        lemma_released_once(front, k);
    }
}

/// Single ownership: giving up handles of different addresses makes as many
/// releases as there are handles, returns each handle's address exactly
/// once, by the handle's own deallocator, and returns no other address.
pub proof fn law_single_ownership(handles: Seq<BlsctObj>, other: usize)
    requires
        independent(handles),
        forall|i: int| 0 <= i < handles.len() ==> handles[i]@.ptr != other,
    ensures
        owed_by(handles).len() == handles.len(),
        forall|i: int|
            0 <= i < handles.len() ==> #[trigger] owed_by(handles)[i] == handles[i]@.owed()
                && times_released(owed_by(handles), handles[i]@.ptr) == 1,
        times_released(owed_by(handles), other) == 0,
{
    let releases = owed_by(handles);
    assert forall|i: int| 0 <= i < handles.len() implies #[trigger] releases[i]
        == handles[i]@.owed() && times_released(releases, handles[i]@.ptr) == 1 by {
        lemma_released_once(releases, i);
    }
    lemma_never_released(releases, other);
}

} // verus!
