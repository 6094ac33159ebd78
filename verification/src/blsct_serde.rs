//! The hex codec: what is checked before text goes to the native library as a
//! C string, what is checked when text comes back, and the hex coding of
//! bytes that the bridge does itself.

use vstd::prelude::*;
use vstd::bytes::spec_u64_to_le_bytes;
use vstd::utf8::valid_utf8;
use vstd::utf8::encode_utf8;
use crate::ffi::CTX_ID_SIZE;
use crate::ffi::DOUBLE_PUBLIC_KEY_SIZE;
use crate::ffi::KEY_ID_SIZE;
use crate::ffi::OUT_POINT_SIZE;
use crate::ffi::POINT_SIZE;
use crate::ffi::PUBLIC_KEY_SIZE;
use crate::ffi::SCALAR_SIZE;
use crate::ffi::SCRIPT_SIZE;
use crate::ffi::SIGNATURE_SIZE;
use crate::ffi::SUB_ADDR_ID_SIZE;
use crate::ffi::SUB_ADDR_SIZE;
use crate::ffi::TOKEN_ID_SIZE;
use crate::util::decimal_text;
use crate::util::numbered;

verus! {

/// The native types that a handle can own.
#[derive(Debug, Clone, Copy, PartialEq, Eq, Structural)]
pub enum ObjKind {
    CTx,
    CTxId,
    DoublePublicKey,
    HashId,
    OutPoint,
    Point,
    PublicKey,
    RangeProof,
    Scalar,
    Script,
    Signature,
    SubAddr,
    SubAddrId,
    TokenId,
    TxIn,
    TxOut,
    VectorPredicate,
}

/// How two values of a type are compared.
#[derive(Debug, Clone, Copy, PartialEq, Eq, Structural)]
pub enum Equality {
    /// Byte by byte over the owned memory: the type has one encoding for
    /// each value.
    Bytes,
    /// By the native equality function of the type.
    Foreign,
    /// By the parts that the native accessors give.
    Parts,
}

impl ObjKind {
    /// The size of the type where the type fixes it; `None` for a type whose
    /// values vary in size.
    pub open spec fn spec_static_size(self) -> Option<usize> {
        match self {
            ObjKind::CTxId => Some(CTX_ID_SIZE),
            ObjKind::DoublePublicKey => Some(DOUBLE_PUBLIC_KEY_SIZE),
            ObjKind::HashId => Some(KEY_ID_SIZE),
            ObjKind::OutPoint => Some(OUT_POINT_SIZE),
            ObjKind::Point => Some(POINT_SIZE),
            ObjKind::PublicKey => Some(PUBLIC_KEY_SIZE),
            ObjKind::Scalar => Some(SCALAR_SIZE),
            ObjKind::Script => Some(SCRIPT_SIZE),
            ObjKind::Signature => Some(SIGNATURE_SIZE),
            ObjKind::SubAddr => Some(SUB_ADDR_SIZE),
            ObjKind::SubAddrId => Some(SUB_ADDR_ID_SIZE),
            ObjKind::TokenId => Some(TOKEN_ID_SIZE),
            ObjKind::CTx | ObjKind::RangeProof | ObjKind::TxIn | ObjKind::TxOut
            | ObjKind::VectorPredicate => None,
        }
    }

    pub fn static_size(self) -> (size: Option<usize>)
        ensures
            size == self.spec_static_size(),
    {
        match self {
            ObjKind::CTxId => Some(CTX_ID_SIZE),
            ObjKind::DoublePublicKey => Some(DOUBLE_PUBLIC_KEY_SIZE),
            ObjKind::HashId => Some(KEY_ID_SIZE),
            ObjKind::OutPoint => Some(OUT_POINT_SIZE),
            ObjKind::Point => Some(POINT_SIZE),
            ObjKind::PublicKey => Some(PUBLIC_KEY_SIZE),
            ObjKind::Scalar => Some(SCALAR_SIZE),
            ObjKind::Script => Some(SCRIPT_SIZE),
            ObjKind::Signature => Some(SIGNATURE_SIZE),
            ObjKind::SubAddr => Some(SUB_ADDR_SIZE),
            ObjKind::SubAddrId => Some(SUB_ADDR_ID_SIZE),
            ObjKind::TokenId => Some(TOKEN_ID_SIZE),
            ObjKind::CTx | ObjKind::RangeProof | ObjKind::TxIn | ObjKind::TxOut
            | ObjKind::VectorPredicate => None,
        }
    }

    /// Whether deserializing a value of the type needs the size of the
    /// object beside the hex text. The size is then half the length of the
    /// text, and nothing else carries it.
    pub open spec fn spec_sized_codec(self) -> bool {
        self == ObjKind::RangeProof || self == ObjKind::VectorPredicate || self == ObjKind::TxIn
            || self == ObjKind::TxOut
    }

    pub fn sized_codec(self) -> (yes: bool)
        ensures
            yes == self.spec_sized_codec(),
    {
        match self {
            ObjKind::RangeProof | ObjKind::VectorPredicate | ObjKind::TxIn | ObjKind::TxOut => true,
            _ => false,
        }
    }

    pub open spec fn spec_equality(self) -> Equality {
        match self {
            ObjKind::Point | ObjKind::Scalar | ObjKind::VectorPredicate => Equality::Foreign,
            ObjKind::RangeProof | ObjKind::TokenId | ObjKind::TxIn | ObjKind::TxOut
            | ObjKind::OutPoint => Equality::Parts,
            _ => Equality::Bytes,
        }
    }

    /// The equality that is sound for the type.
    pub fn equality(self) -> (rule: Equality)
        ensures
            rule == self.spec_equality(),
    {
        match self {
            ObjKind::Point | ObjKind::Scalar | ObjKind::VectorPredicate => Equality::Foreign,
            ObjKind::RangeProof | ObjKind::TokenId | ObjKind::TxIn | ObjKind::TxOut
            | ObjKind::OutPoint => Equality::Parts,
            _ => Equality::Bytes,
        }
    }

    pub open spec fn spec_name(self) -> Seq<char> {
        match self {
            ObjKind::CTx => "CTx"@,
            ObjKind::CTxId => "CTxId"@,
            ObjKind::DoublePublicKey => "DoublePublicKey"@,
            ObjKind::HashId => "HashId"@,
            ObjKind::OutPoint => "OutPoint"@,
            ObjKind::Point => "Point"@,
            ObjKind::PublicKey => "PublicKey"@,
            ObjKind::RangeProof => "RangeProof"@,
            ObjKind::Scalar => "Scalar"@,
            ObjKind::Script => "Script"@,
            ObjKind::Signature => "Signature"@,
            ObjKind::SubAddr => "SubAddr"@,
            ObjKind::SubAddrId => "SubAddrId"@,
            ObjKind::TokenId => "TokenId"@,
            ObjKind::TxIn => "TxIn"@,
            ObjKind::TxOut => "TxOut"@,
            ObjKind::VectorPredicate => "VectorPredicate"@,
        }
    }

    /// The name under which a value of the type is displayed.
    pub fn name(self) -> (name: &'static str)
        ensures
            name@ == self.spec_name(),
    {
        match self {
            ObjKind::CTx => "CTx",
            ObjKind::CTxId => "CTxId",
            ObjKind::DoublePublicKey => "DoublePublicKey",
            ObjKind::HashId => "HashId",
            ObjKind::OutPoint => "OutPoint",
            ObjKind::Point => "Point",
            ObjKind::PublicKey => "PublicKey",
            ObjKind::RangeProof => "RangeProof",
            ObjKind::Scalar => "Scalar",
            ObjKind::Script => "Script",
            ObjKind::Signature => "Signature",
            ObjKind::SubAddr => "SubAddr",
            ObjKind::SubAddrId => "SubAddrId",
            ObjKind::TokenId => "TokenId",
            ObjKind::TxIn => "TxIn",
            ObjKind::TxOut => "TxOut",
            ObjKind::VectorPredicate => "VectorPredicate",
        }
    }
}

/// Why text could not cross the boundary.
#[derive(Debug, Clone, Copy, PartialEq, Eq, Structural)]
pub enum Error {
    /// The native serializer returned null.
    SerializationFailed,
    /// The text that came back is not UTF-8.
    InvalidUtf8,
    /// The text holds a zero byte at this position, so it is no C string.
    InteriorNul(usize),
}

impl Error {
    pub open spec fn spec_message(self) -> Seq<char> {
        match self {
            Error::SerializationFailed => "Serialization failed. c_hex is null"@,
            Error::InvalidUtf8 => "Converting C-Str to String failed"@,
            Error::InteriorNul(at) => "string contains interior NUL at "@ + decimal_text(
                at as nat,
            ),
        }
    }

    /// The error in words.
    pub fn message(self) -> (text: String)
        ensures
            text@ == self.spec_message(),
    {
        match self {
            Error::SerializationFailed => String::from_str("Serialization failed. c_hex is null"),
            Error::InvalidUtf8 => String::from_str("Converting C-Str to String failed"),
            Error::InteriorNul(at) => numbered("string contains interior NUL at ", at),
        }
    }
}

/// The lower-case hex digit of a number below sixteen.
pub open spec fn hex_char(n: int) -> char {
    if n == 0 {
        '0'
    } else if n == 1 {
        '1'
    } else if n == 2 {
        '2'
    } else if n == 3 {
        '3'
    } else if n == 4 {
        '4'
    } else if n == 5 {
        '5'
    } else if n == 6 {
        '6'
    } else if n == 7 {
        '7'
    } else if n == 8 {
        '8'
    } else if n == 9 {
        '9'
    } else if n == 10 {
        'a'
    } else if n == 11 {
        'b'
    } else if n == 12 {
        'c'
    } else if n == 13 {
        'd'
    } else if n == 14 {
        'e'
    } else {
        'f'
    }
}

/// The number that a hex digit of either case stands for.
pub open spec fn hex_value(c: char) -> Option<int> {
    if c == '0' {
        Some(0)
    } else if c == '1' {
        Some(1)
    } else if c == '2' {
        Some(2)
    } else if c == '3' {
        Some(3)
    } else if c == '4' {
        Some(4)
    } else if c == '5' {
        Some(5)
    } else if c == '6' {
        Some(6)
    } else if c == '7' {
        Some(7)
    } else if c == '8' {
        Some(8)
    } else if c == '9' {
        Some(9)
    } else if c == 'a' || c == 'A' {
        Some(10)
    } else if c == 'b' || c == 'B' {
        Some(11)
    } else if c == 'c' || c == 'C' {
        Some(12)
    } else if c == 'd' || c == 'D' {
        Some(13)
    } else if c == 'e' || c == 'E' {
        Some(14)
    } else if c == 'f' || c == 'F' {
        Some(15)
    } else {
        None
    }
}

/// The hex text of bytes: two lower-case digits for each, the high half
/// first.
pub open spec fn hex_text(data: Seq<u8>) -> Seq<char> {
    Seq::new(
        2 * data.len(),
        |i: int|
            if i % 2 == 0 {
                hex_char(data[i / 2] as int / 16)
            } else {
                hex_char(data[i / 2] as int % 16)
            },
    )
}

/// Text that is an even number of hex digits.
pub open spec fn is_hex_text(text: Seq<char>) -> bool {
    text.len() % 2 == 0 && forall|i: int| 0 <= i < text.len() ==> hex_value(#[trigger] text[i]).is_some()
}

/// The bytes that hex text stands for.
pub open spec fn hex_bytes(text: Seq<char>) -> Seq<u8> {
    Seq::new(
        text.len() / 2,
        |i: int| (16 * hex_value(text[2 * i]).unwrap() + hex_value(text[2 * i + 1]).unwrap()) as u8,
    )
}

/// Calls `hex::encode`: the text has two lower-case hex digits for each
/// byte, in order, the high half of a byte before the low half.
#[verifier::external_body]
pub(crate) fn hex_encode(data: &[u8]) -> (text: String)
    ensures
        text@ == hex_text(data@),
{
    hex::encode(data)
}

/// Calls `hex::decode`: it succeeds exactly on an even number of hex digits
/// of either case, and then gives one byte for each pair, the first digit
/// being the high half.
#[verifier::external_body]
pub(crate) fn hex_decode(text: &str) -> (data: Option<Vec<u8>>)
    ensures
        data.is_some() <==> is_hex_text(text@),
        data matches Some(v) ==> v@ == hex_bytes(text@),
{
    hex::decode(text).ok()
}

/// Calls `String::from_utf8`: it succeeds exactly on well-formed UTF-8, and
/// the string then encodes to the bytes given.
#[verifier::external_body]
pub(crate) fn string_from_utf8(bytes: Vec<u8>) -> (text: Option<String>)
    ensures
        text.is_some() <==> valid_utf8(bytes@),
        text matches Some(s) ==> encode_utf8(s@) == bytes@,
{
    String::from_utf8(bytes).ok()
}

/// Calls `bincode::serialize` on a string: the length of the string in
/// bytes as eight little-endian bytes, then the bytes of the string.
#[verifier::external_body]
pub(crate) fn bincode_str(text: &str) -> (frame: Option<Vec<u8>>)
    ensures
        frame.is_some(),
        frame matches Some(v) ==> v@ == bincode_frame(encode_utf8(text@)),
{
    bincode::serialize(text).ok()
}

/// How a string of the given bytes is framed for storage.
pub open spec fn bincode_frame(bytes: Seq<u8>) -> Seq<u8> {
    spec_u64_to_le_bytes(bytes.len() as u64) + bytes
}

/// The bytes of `text` with the terminator of a C string behind them, or the
/// place of the first zero byte in `text`.
pub fn c_string(text: &str) -> (res: Result<Vec<u8>, usize>)
    ensures
        res matches Ok(c) ==> !encode_utf8(text@).contains(0u8) && c@ == encode_utf8(text@).push(
            0u8,
        ),
        res matches Err(at) ==> at < encode_utf8(text@).len() && encode_utf8(text@)[at as int] == 0
            && forall|k: int| 0 <= k < at ==> encode_utf8(text@)[k] != 0,
{
    let bytes = text.as_bytes();
    let mut c: Vec<u8> = Vec::new();
    let mut i: usize = 0;
    while i < bytes.len()
        invariant
            i <= bytes@.len(),
            bytes@ == encode_utf8(text@),
            c@ == bytes@.take(i as int),
            forall|k: int| 0 <= k < i ==> bytes@[k] != 0,
        decreases bytes@.len() - i,
    {
        if bytes[i] == 0 {
            return Err(i);
        }
        c.push(bytes[i]);
        i += 1;
        assert(c@ =~= bytes@.take(i as int));
    }
    assert(bytes@.take(i as int) =~= bytes@);
    c.push(0);
    Ok(c)
}

/// Text as a C string for the native library: `c_string`, with the refusal
/// as an error of the codec.
pub fn to_c_string(text: &str) -> (res: Result<Vec<u8>, Error>)
    ensures
        res matches Ok(c) ==> !encode_utf8(text@).contains(0u8) && c@ == encode_utf8(text@).push(
            0u8,
        ),
        res matches Err(e) ==> (e matches Error::InteriorNul(at) && at < encode_utf8(text@).len()
            && encode_utf8(text@)[at as int] == 0 && forall|k: int|
            0 <= k < at ==> encode_utf8(text@)[k] != 0),
{
    match c_string(text) {
        Ok(c) => Ok(c),
        Err(at) => Err(Error::InteriorNul(at)),
    }
}

/// The text that came back from the native library as the bytes of a C
/// string, if it is UTF-8.
pub fn from_c_string(bytes: Vec<u8>) -> (res: Result<String, Error>)
    ensures
        valid_utf8(bytes@) ==> (res matches Ok(s) && encode_utf8(s@) == bytes@),
        !valid_utf8(bytes@) ==> res == Err::<String, Error>(Error::InvalidUtf8),
{
    match string_from_utf8(bytes) {
        Some(s) => Ok(s),
        None => Err(Error::InvalidUtf8),
    }
}

/// The content of the C string that starts a buffer: the bytes before the
/// first zero byte, or all of them where there is none.
pub open spec fn c_str_of(buf: Seq<u8>) -> Seq<u8>
    decreases buf.len(),
{
    if buf.len() == 0 || buf[0] == 0 {
        Seq::empty()
    } else {
        seq![buf[0]] + c_str_of(buf.drop_first())
    }
}

/// A buffer whose first `n` bytes are not zero and which ends there or has
/// a zero byte there starts with a C string of exactly those bytes.
pub proof fn lemma_c_str_of(buf: Seq<u8>, n: int)
    requires
        0 <= n <= buf.len(),
        forall|k: int| 0 <= k < n ==> buf[k] != 0,
        n == buf.len() || buf[n] == 0,
    ensures
        c_str_of(buf) == buf.take(n),
    decreases n,
{
    if n == 0 {
        assert(buf.take(0) =~= Seq::<u8>::empty());
    } else {
        let rest = buf.drop_first();
        assert forall|k: int| 0 <= k < n - 1 implies rest[k] != 0 by {
            assert(rest[k] == buf[k + 1]);
        }
        lemma_c_str_of(rest, n - 1);
        assert(seq![buf[0]] + rest.take(n - 1) =~= buf.take(n));
    }
}

/// Copies the C string that starts `buf`.
pub fn c_str_bytes(buf: &[u8]) -> (out: Vec<u8>)
    ensures
        out@ == c_str_of(buf@),
{
    let mut out: Vec<u8> = Vec::new();
    let mut i: usize = 0;
    while i < buf.len() && buf[i] != 0
        invariant
            i <= buf@.len(),
            out@ == buf@.take(i as int),
            forall|k: int| 0 <= k < i ==> buf@[k] != 0,
        decreases buf@.len() - i,
    {
        out.push(buf[i]);
        i += 1;
        assert(out@ =~= buf@.take(i as int));
    }
    proof {
        lemma_c_str_of(buf@, i as int);
    }
    out
}

/// What the native deserializer of a type is called with.
#[derive(Debug)]
pub struct DeserializeCall {
    /// The hex text as a C string, terminator included.
    pub c_hex: Vec<u8>,
    /// The size of the object, where the deserializer takes it.
    pub obj_size: Option<usize>,
}

/// How a value is shown: the name of its type and, in brackets, the hex
/// text of the framed hex text that the native serializer gave for it.
pub open spec fn displayed(kind: ObjKind, hex: Seq<char>) -> Seq<char> {
    kind.spec_name() + seq!['('] + hex_text(bincode_frame(encode_utf8(hex))) + seq![')']
}

/// The text that shows a value of type `kind` whose native hex text is
/// `hex`.
pub fn display(kind: ObjKind, hex: &str) -> (out: String)
    ensures
        out@ == displayed(kind, hex@),
{
    let frame = match bincode_str(hex) {
        Some(v) => v,
        None => Vec::new(),
    };
    let digits = hex_encode(frame.as_slice());
    proof {
        reveal_strlit("(");
        reveal_strlit(")");
        assert("("@ =~= seq!['(']);
        assert(")"@ =~= seq![')']);
    }
    let out = String::from_str(kind.name()).concat("(").concat(digits.as_str()).concat(")");
    out
}

/// Text without a zero byte survives the C-string boundary: the C string
/// made of it holds its bytes, these are accepted as UTF-8 on the way back,
/// and no other text has them.
pub proof fn law_c_string_round_trip(text: Seq<char>, back: Seq<char>)
    requires
        !encode_utf8(text).contains(0u8),
    ensures
        c_str_of(encode_utf8(text).push(0u8)) == encode_utf8(text),
        valid_utf8(encode_utf8(text)),
        encode_utf8(back) == encode_utf8(text) ==> back == text,
{
    let bytes = encode_utf8(text);
    let c = bytes.push(0u8);
    assert forall|k: int| 0 <= k < bytes.len() implies c[k] != 0 by {
        assert(c[k] == bytes[k]);
        assert(bytes.contains(bytes[k]));
    }
    lemma_c_str_of(c, bytes.len() as int);
    assert(c.take(bytes.len() as int) =~= bytes);
    vstd::utf8::encode_utf8_valid_utf8(text);
    vstd::utf8::encode_utf8_decode_utf8(text);
    vstd::utf8::encode_utf8_decode_utf8(back);
}

/// Hex text carries the size of what it stands for: it is ASCII without a
/// zero byte, so it crosses the C-string boundary as it is, and half its
/// length in bytes is the number of bytes it was made of. A value whose
/// type does not fix its size therefore needs no size beside its text.
pub proof fn law_hex_text_carries_size(data: Seq<u8>)
    ensures
        !encode_utf8(hex_text(data)).contains(0u8),
        encode_utf8(hex_text(data)).len() / 2 == data.len(),
{
    let text = hex_text(data);
    assert forall|i: int| 0 <= i < text.len() implies '\0' < #[trigger] text[i] <= '\u{7f}' by {
        let d = data[i / 2] as int;
        assert(0 <= d / 16 < 16 && 0 <= d % 16 < 16);
    }
    vstd::utf8::is_ascii_chars_encode_utf8(text);
    let bytes = encode_utf8(text);
    assert forall|i: int| 0 <= i < bytes.len() implies bytes[i] != 0u8 by {
        assert(text[i] as u8 == bytes[i]);
        assert('\0' < text[i]);
    }
    assert((2 * data.len()) / 2 == data.len());
}

/// Decoding undoes encoding: the hex text of any bytes is hex text, and it
/// stands for those bytes.
pub proof fn law_hex_round_trip(data: Seq<u8>)
    ensures
        is_hex_text(hex_text(data)),
        hex_bytes(hex_text(data)) == data,
{
    let text = hex_text(data);
    assert forall|i: int| 0 <= i < text.len() implies hex_value(#[trigger] text[i]).is_some() by {
        let d = data[i / 2] as int;
        assert(0 <= d / 16 < 16 && 0 <= d % 16 < 16);
    }
    assert((2 * data.len()) % 2 == 0) by (nonlinear_arith);
    assert forall|i: int| 0 <= i < data.len() implies #[trigger] hex_bytes(text)[i] == data[i] by {
        let d = data[i] as int;
        assert(0 <= d / 16 < 16 && 0 <= d % 16 < 16);
        assert((2 * i) % 2 == 0 && (2 * i) / 2 == i && (2 * i + 1) % 2 == 1 && (2 * i + 1) / 2 == i);
        assert(hex_value(hex_char(d / 16)) == Some(d / 16));
        assert(hex_value(hex_char(d % 16)) == Some(d % 16));
        assert(16 * (d / 16) + d % 16 == d);
    }
    assert(text.len() / 2 == data.len());
    assert(hex_bytes(text) =~= data);
}

} // verus!
