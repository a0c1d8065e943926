//! CBOR request and response bodies: a size-policed accumulator for incoming
//! chunks, the content-type check in front of it, and the mapping of faults to
//! responses.

use vstd::prelude::*;

pub mod body;
pub mod codec;
pub mod config;
pub mod error;
pub mod extract;
pub mod response;

verus! {

/// Carrier for a value that travels as CBOR.
#[derive(Default, Clone)]
pub struct Cbor<T>(pub T);

impl<T> Cbor<T> {
    /// Unwraps the carried value.
    pub fn into_inner(self) -> (inner: T)
        ensures
            inner == self.0,
    {
        self.0
    }
}

impl<T> core::ops::Deref for Cbor<T> {
    type Target = T;

    fn deref(&self) -> (inner: &T)
        ensures
            *inner == self.0,
    {
        &self.0
    }
}

impl<T> core::ops::DerefMut for Cbor<T> {
    fn deref_mut(&mut self) -> (inner: &mut T)
        ensures
            *inner == old(self).0,
            final(self).0 == *final(inner),
    {
        &mut self.0
    }
}

} // verus!
