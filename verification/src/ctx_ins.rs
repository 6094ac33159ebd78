//! The inputs of a built transaction.

use vstd::prelude::*;
use crate::ctx::CTx;
use crate::util::decimal_text;
use crate::util::numbered;
use crate::ctx_in::CTxIn;

verus! {

#[derive(Debug, Clone, Copy, PartialEq, Eq, Structural)]
pub enum Error {
    /// The index is not below the number of inputs; `max_index` is the
    /// last index there is, and zero where there is no input at all.
    IndexOutOfRange { index: usize, max_index: usize },
}

impl Error {
    pub open spec fn spec_message(self) -> Seq<char> {
        match self {
            Error::IndexOutOfRange { index, max_index } => "Index "@ + decimal_text(index as nat)
                + " is out of range. Max index is "@ + decimal_text(max_index as nat),
        }
    }

    /// The error in words.
    pub fn message(self) -> (text: String)
        ensures
            text@ == self.spec_message(),
    {
        match self {
            Error::IndexOutOfRange { index, max_index } => {
                let tail = numbered(" is out of range. Max index is ", max_index);
                let text = numbered("Index ", index).concat(tail.as_str());
                assert(text@ =~= self.spec_message());
                text
            },
        }
    }
}

/// A view of the inputs of a transaction. It borrows the transaction, so
/// it cannot outlive it, and owes no release.
#[derive(Debug)]
pub struct CTxIns<'a> {
    obj: usize,
    ctx: &'a CTx,
}

impl<'a> CTxIns<'a> {
    pub closed spec fn spec_value(&self) -> usize {
        self.obj
    }

    pub closed spec fn owner(&self) -> &'a CTx {
        self.ctx
    }

    /// The view of the inputs of `ctx`, which the native library keeps at
    /// `obj`.
    pub fn from(ctx: &'a CTx, obj: usize) -> (v: Self)
        ensures
            v.spec_value() == obj,
            v.owner() == ctx,
    {
        CTxIns { obj, ctx }
    }

    /// The address of the native input list.
    pub fn value(&self) -> (ptr: usize)
        ensures
            ptr == self.spec_value(),
    {
        self.obj
    }

    /// Checks the index of an input against the number of inputs, `len`,
    /// before the native library is asked for the input.
    pub fn get_ctx_in_at(&self, i: usize, len: usize) -> (res: Result<usize, Error>)
        ensures
            i < len ==> res == Ok::<usize, Error>(i),
            i >= len ==> res == Err::<usize, Error>(
                (Error::IndexOutOfRange { index: i, max_index: if len == 0 {
                    0
                } else {
                    (len - 1) as usize
                } }),
            ),
    {
        if i >= len {
            let max_index: usize = if len == 0 {
                0
            } else {
                len - 1
            };
            Err(Error::IndexOutOfRange { index: i, max_index })
        } else {
            Ok(i)
        }
    }

    /// The view of one input, which the native library keeps at `obj`. It
    /// borrows the same transaction.
    pub fn ctx_in(&self, obj: usize) -> (v: CTxIn<'a>)
        ensures
            v.spec_value() == obj,
            v.owner() == self.owner(),
    {
        CTxIn::from(self.ctx, obj)
    }
}

} // verus!
