//! View tags.

use vstd::prelude::*;

verus! {

/// The tag by which a receiver recognises an output as possibly its own.
#[derive(Debug, Clone, Copy, PartialEq, Eq, Structural)]
pub struct ViewTag {
    value: u64,
}

impl ViewTag {
    pub closed spec fn spec_value(&self) -> u64 {
        self.value
    }

    /// The view tag that the native library computed from a blinding public
    /// key and a view key.
    pub fn new(value: u64) -> (tag: Self)
        ensures
            tag.spec_value() == value,
    {
        ViewTag { value }
    }

    pub fn value(&self) -> (value: u64)
        ensures
            value == self.spec_value(),
    {
        self.value
    }
}

} // verus!
