//! Helpers around hex text and envelopes that several types share.

use vstd::prelude::*;
use rand::Rng;
use crate::blsct_obj;
use crate::blsct_serde::hex_bytes;
use crate::blsct_serde::hex_decode;
use crate::blsct_serde::is_hex_text;
use crate::ffi::BlsctRetVal;

verus! {

/// Why hex text gave no array.
#[derive(Debug, Clone, Copy, PartialEq, Eq, Structural)]
pub enum Error {
    /// The text is not an even number of hex digits.
    InvalidHex,
    /// The text stands for this many bytes, not for as many as the array
    /// holds.
    InvalidHexSize(usize),
}

/// What hex text gives as an array of `n` bytes.
pub open spec fn array_of_hex(hex: Seq<char>, n: int) -> Result<Seq<u8>, Error> {
    if !is_hex_text(hex) {
        Err(Error::InvalidHex)
    } else if hex_bytes(hex).len() != n {
        Err(Error::InvalidHexSize(hex_bytes(hex).len() as usize))
    } else {
        Ok(hex_bytes(hex))
    }
}

/// Decodes hex text into an array of exactly `N` bytes.
pub fn c_hex_str_to_array<const N: usize>(hex: &str) -> (res: Result<[u8; N], Error>)
    ensures
        match array_of_hex(hex@, N as int) {
            Ok(bytes) => res matches Ok(a) && a@ == bytes,
            Err(e) => res == Err::<[u8; N], Error>(e),
        },
{
    match hex_decode(hex) {
        None => Err(Error::InvalidHex),
        Some(bytes) => {
            if bytes.len() != N {
                return Err(Error::InvalidHexSize(bytes.len()));
            }
            let mut a: [u8; N] = [0u8; N];
            let mut i: usize = 0;
            while i < N
                invariant
                    i <= N,
                    bytes@.len() == N,
                    forall|k: int| 0 <= k < i ==> a@[k] == bytes@[k],
                decreases N - i,
            {
                a[i] = bytes[i];
                i += 1;
            }
            assert(a@ =~= bytes@);
            Ok(a)
        },
    }
}

/// The envelope of a success that carries `value` as an object of `N`
/// bytes. `slot` is the address that the native allocator gave for the
/// envelope; null there is an allocation failure.
pub fn build_succ_blsct_ret_val<const N: usize>(value: usize, slot: usize) -> (res: Result<
    BlsctRetVal,
    blsct_obj::Error,
>)
    ensures
        slot == 0 ==> res == Err::<BlsctRetVal, blsct_obj::Error>(
            blsct_obj::Error::FailedToAllocateMemory,
        ),
        slot != 0 ==> res == Ok::<BlsctRetVal, blsct_obj::Error>(
            (BlsctRetVal { result: 0, value, value_size: N }),
        ),
{
    if slot == 0 {
        Err(blsct_obj::Error::FailedToAllocateMemory)
    } else {
        Ok(BlsctRetVal { result: 0, value, value_size: N })
    }
}

/// Hex text of an object of `size` bytes, filled up on the left with the
/// digit zero where it is shorter than two digits for each byte.
pub open spec fn padded(hex: Seq<u8>, size: int) -> Seq<u8> {
    if hex.len() < 2 * size {
        Seq::new((2 * size - hex.len()) as nat, |i: int| 48u8) + hex
    } else {
        hex
    }
}

/// Fills hex text up on the left to the length that an object of `size`
/// bytes has.
pub fn pad_hex_left(hex: &[u8], size: usize) -> (out: Vec<u8>)
    requires
        2 * size <= usize::MAX,
    ensures
        out@ == padded(hex@, size as int),
{
    let len: usize = size * 2;
    let mut out: Vec<u8> = Vec::new();
    if hex.len() < len {
        let fill: usize = len - hex.len();
        let mut i: usize = 0;
        while i < fill
            invariant
                i <= fill,
                out@ == Seq::new(i as nat, |k: int| 48u8),
            decreases fill - i,
        {
            out.push(48u8);
            i += 1;
            assert(out@ =~= Seq::new(i as nat, |k: int| 48u8));
        }
    }
    let ghost front = out@;
    let mut j: usize = 0;
    while j < hex.len()
        invariant
            j <= hex@.len(),
            out@ == front + hex@.take(j as int),
        decreases hex@.len() - j,
    {
        out.push(hex[j]);
        j += 1;
        assert(out@ =~= front + hex@.take(j as int));
    }
    assert(hex@.take(j as int) =~= hex@);
    assert(front + hex@ =~= padded(hex@, size as int));
    out
}

/// The digit of a number below ten.
pub open spec fn digit(d: int) -> char {
    if d == 0 {
        '0'
    } else if d == 1 {
        '1'
    } else if d == 2 {
        '2'
    } else if d == 3 {
        '3'
    } else if d == 4 {
        '4'
    } else if d == 5 {
        '5'
    } else if d == 6 {
        '6'
    } else if d == 7 {
        '7'
    } else if d == 8 {
        '8'
    } else {
        '9'
    }
}

/// A number in decimal digits, without leading zeros.
pub open spec fn decimal_text(n: nat) -> Seq<char>
    decreases n,
{
    if n < 10 {
        seq![digit(n as int)]
    } else {
        decimal_text(n / 10).push(digit((n % 10) as int))
    }
}

fn digit_str(d: usize) -> (s: &'static str)
    requires
        d < 10,
    ensures
        s@ == seq![digit(d as int)],
{
    proof {
        reveal_strlit("0");
        reveal_strlit("1");
        reveal_strlit("2");
        reveal_strlit("3");
        reveal_strlit("4");
        reveal_strlit("5");
        reveal_strlit("6");
        reveal_strlit("7");
        reveal_strlit("8");
        reveal_strlit("9");
    }
    let s = if d == 0 {
        "0"
    } else if d == 1 {
        "1"
    } else if d == 2 {
        "2"
    } else if d == 3 {
        "3"
    } else if d == 4 {
        "4"
    } else if d == 5 {
        "5"
    } else if d == 6 {
        "6"
    } else if d == 7 {
        "7"
    } else if d == 8 {
        "8"
    } else {
        "9"
    };
    assert(s@ =~= seq![digit(d as int)]);
    s
}

/// Writes a number in decimal digits.
pub fn decimal(n: usize) -> (text: String)
    ensures
        text@ == decimal_text(n as nat),
    decreases n,
{
    if n < 10 {
        String::from_str(digit_str(n))
    } else {
        let front = decimal(n / 10);
        let text = front.concat(digit_str(n % 10));
        assert(text@ =~= decimal_text(n as nat));
        text
    }
}

/// A fixed text followed by a number in decimal digits.
pub fn numbered(text: &str, n: usize) -> (out: String)
    ensures
        out@ == text@ + decimal_text(n as nat),
{
    let digits = decimal(n);
    String::from_str(text).concat(digits.as_str())
}

impl Error {
    pub open spec fn spec_message(self) -> Seq<char> {
        match self {
            Error::InvalidHex => "Invalid hex"@,
            Error::InvalidHexSize(n) => "Invalid hex size: "@ + decimal_text(n as nat),
        }
    }

    /// The error in words.
    pub fn message(self) -> (text: String)
        ensures
            text@ == self.spec_message(),
    {
        match self {
            Error::InvalidHex => String::from_str("Invalid hex"),
            Error::InvalidHexSize(n) => numbered("Invalid hex size: ", n),
        }
    }
}

/// Calls `rand::rng` and `Rng::fill` on a buffer of `N` bytes. Nothing is
/// known of the bytes.
#[verifier::external_body]
pub fn gen_random_malloced_buf<const N: usize>() -> (buf: [u8; N]) {
    let mut buf = [0u8; N];
    rand::rng().fill(&mut buf[..]);
    buf
}

} // verus!
