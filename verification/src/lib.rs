//! Verified core of a bridge to a native confidential-transaction library.
//!
//! The native library hands out heap objects as an address and a size that
//! travels beside it. This crate holds every decision the bridge takes about
//! such objects: how a result envelope is read, who releases which address and
//! with what, how hex text is checked before and after it crosses the C-string
//! boundary, and in which order the calls that assemble a transaction or a
//! range proof are made and undone. The calls themselves are made by the
//! embedding program, which hands this crate plain values.

pub mod address;
pub mod amount_recovery_req;
pub mod amount_recovery_res;
pub mod blsct_obj;
pub mod blsct_serde;
pub mod chain;
pub mod ctx;
pub mod ctx_id;
pub mod ctx_in;
pub mod ctx_ins;
pub mod ctx_out;
pub mod ctx_outs;
pub mod ffi;
pub mod hash_id;
pub mod initializer;
pub mod keys;
pub mod out_point;
pub mod point;
pub mod range_proof;
pub mod scalar;
pub mod script;
pub mod signature;
pub mod sub_addr;
pub mod sub_addr_id;
pub mod token_id;
pub mod tx_in;
pub mod tx_out;
pub mod util;
pub mod vector_predicate;
pub mod view_tag;
