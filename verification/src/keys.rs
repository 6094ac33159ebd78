//! Keys and what derives from them. Every derivation is one native call that
//! returns a new object by its address.

pub mod child_key;
pub mod double_public_key;
pub mod priv_spending_key;
pub mod public_key;
pub mod tx_key;
