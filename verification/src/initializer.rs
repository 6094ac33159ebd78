//! The guard in front of the one-time initialization of the native library.

use vstd::prelude::*;

verus! {

/// Remembers whether the native library has been initialized.
#[derive(Debug)]
pub struct Initializer {
    done: bool,
}

impl Initializer {
    pub closed spec fn is_done(&self) -> bool {
        self.done
    }

    pub fn new() -> (guard: Self)
        ensures
            !guard.is_done(),
    {
        Initializer { done: false }
    }

    /// Asks to initialize. The answer says whether the native
    /// initialization has to run now: it does on the first call and on no
    /// later one.
    pub fn init(&mut self) -> (run: bool)
        ensures
            run == !old(self).is_done(),
            final(self).is_done(),
    {
        if self.done {
            false
        } else {
            self.done = true;
            true
        }
    }
}

/// How often the native initialization runs in `calls` askings, starting
/// from a guard that is, or is not, done.
pub open spec fn runs(done: bool, calls: nat) -> nat
    decreases calls,
{
    if calls == 0 {
        0
    } else if done {
        runs(true, (calls - 1) as nat)
    } else {
        1 + runs(true, (calls - 1) as nat)
    }
}

/// However often it is asked for, the native initialization runs once: at
/// the first asking of a fresh guard, and never for a guard that is done.
pub proof fn law_init_once(calls: nat)
    ensures
        runs(true, calls) == 0,
        runs(false, calls) == (if calls == 0 {
            0nat
        } else {
            1nat
        }),
    decreases calls,
{
    if calls > 0 {
        law_init_once((calls - 1) as nat);
    }
}

} // verus!
