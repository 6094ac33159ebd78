//! One output of a built transaction.

use vstd::prelude::*;
use crate::ctx::CTx;

verus! {

/// A view of one output of a transaction. It borrows the transaction, so it
/// cannot outlive it, and owes no release.
#[derive(Debug)]
pub struct CTxOut<'a> {
    obj: usize,
    ctx: &'a CTx,
}

impl<'a> CTxOut<'a> {
    pub closed spec fn spec_value(&self) -> usize {
        self.obj
    }

    pub closed spec fn owner(&self) -> &'a CTx {
        self.ctx
    }

    /// The view of the output of `ctx` that the native library keeps at
    /// `obj`.
    pub fn from(ctx: &'a CTx, obj: usize) -> (v: Self)
        ensures
            v.spec_value() == obj,
            v.owner() == ctx,
    {
        CTxOut { obj, ctx }
    }

    /// The address of the native output.
    pub fn value(&self) -> (ptr: usize)
        ensures
            ptr == self.spec_value(),
    {
        self.obj
    }
}

} // verus!
