//! Lifetime branding for handles into a runtime session.
//!
//! `Invariant<'mrb>` is a zero-sized marker that stamps a handle with the
//! session that produced it, so that handles from two different sessions
//! cannot be mixed up by the host.

use vstd::prelude::*;
use core::marker::PhantomData;

verus! {

/// A zero-sized brand tying a value to the session lifetime `'mrb`.
#[derive(Clone, Copy)]
pub struct Invariant<'a>(PhantomData<&'a ()>);

impl<'a> Invariant<'a> {
    /// The one way to make a brand value.
    pub fn phantom() -> Self {
        Invariant(PhantomData)
    }
}

} // verus!
