//! One input of a built transaction.

use vstd::prelude::*;
use crate::ctx::CTx;

verus! {

/// A view of one input of a transaction. It borrows the transaction, so it
/// cannot outlive it, and owes no release.
#[derive(Debug)]
pub struct CTxIn<'a> {
    obj: usize,
    ctx: &'a CTx,
}

impl<'a> CTxIn<'a> {
    pub closed spec fn spec_value(&self) -> usize {
        self.obj
    }

    pub closed spec fn owner(&self) -> &'a CTx {
        self.ctx
    }

    /// The view of the input of `ctx` that the native library keeps at
    /// `obj`.
    pub fn from(ctx: &'a CTx, obj: usize) -> (v: Self)
        ensures
            v.spec_value() == obj,
            v.owner() == ctx,
    {
        CTxIn { obj, ctx }
    }

    /// The address of the native input.
    pub fn value(&self) -> (ptr: usize)
        ensures
            ptr == self.spec_value(),
    {
        self.obj
    }
}

} // verus!
