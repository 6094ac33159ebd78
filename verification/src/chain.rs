//! The chain that the native library works for.

use vstd::prelude::*;
use crate::util::decimal_text;
use crate::util::numbered;

verus! {

#[derive(Debug, Clone, Copy, PartialEq, Eq, Structural)]
pub enum Error {
    /// No chain has this number.
    InvalidChainId(u8),
}

impl Error {
    pub open spec fn spec_message(self) -> Seq<char> {
        match self {
            Error::InvalidChainId(n) => "Invalid chain ID: "@ + decimal_text(n as nat),
        }
    }

    /// The error in words.
    pub fn message(self) -> (text: String)
        ensures
            text@ == self.spec_message(),
    {
        match self {
            Error::InvalidChainId(n) => numbered("Invalid chain ID: ", n as usize),
        }
    }
}

#[derive(Debug, Clone, Copy, PartialEq, Eq, Structural)]
pub enum Chain {
    Mainnet,
    Testnet,
    Signet,
    Regtest,
}

impl Chain {
    /// The number by which the native library knows the chain.
    pub open spec fn id(self) -> int {
        match self {
            Chain::Mainnet => 0,
            Chain::Testnet => 1,
            Chain::Signet => 2,
            Chain::Regtest => 3,
        }
    }

    /// The chain that the native library reports by its number.
    pub fn get(id: i32) -> (chain: Self)
        requires
            0 <= id <= 3,
        ensures
            chain.id() == id,
    {
        if id == 0 {
            Chain::Mainnet
        } else if id == 1 {
            Chain::Testnet
        } else if id == 2 {
            Chain::Signet
        } else {
            Chain::Regtest
        }
    }

    /// The number to hand to the native library to select `chain`.
    pub fn set(chain: Chain) -> (id: i32)
        ensures
            id == chain.id(),
    {
        match chain {
            Chain::Mainnet => 0,
            Chain::Testnet => 1,
            Chain::Signet => 2,
            Chain::Regtest => 3,
        }
    }

    /// The chain of a number, if the number is one of the four.
    pub fn try_from(n: u8) -> (res: Result<Self, Error>)
        ensures
            n <= 3 ==> (res matches Ok(chain) && chain.id() == n),
            n > 3 ==> res == Err::<Self, Error>(Error::InvalidChainId(n)),
    {
        if n == 0 {
            Ok(Chain::Mainnet)
        } else if n == 1 {
            Ok(Chain::Testnet)
        } else if n == 2 {
            Ok(Chain::Signet)
        } else if n == 3 {
            Ok(Chain::Regtest)
        } else {
            Err(Error::InvalidChainId(n))
        }
    }
}

/// A chain is known by its number: two chains with one number are one chain,
/// and every chain's number is one that `get` and `try_from` accept.
pub proof fn law_chain_by_id(a: Chain, b: Chain)
    ensures
        0 <= a.id() <= 3,
        a.id() == b.id() ==> a == b,
{
}

} // verus!
