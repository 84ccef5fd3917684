use core::ops::{Deref, DerefMut};
use vstd::prelude::*;

verus! {

/// A wrapper of one field that forwards to what it holds. Where the payload
/// dereferences to a value with one of the object-safe traits of this crate,
/// the wrapper has the std trait that the object-safe one stands for.
#[derive(Clone, Copy, Debug)]
pub struct Obj<T>(pub T);

impl<T> Obj<T> {
    /// Wraps `item`. `Obj(item)` does the same; this form also works through
    /// a type alias.
    pub fn new(item: T) -> (wrapped: Self)
        ensures
            wrapped.0 == item,
    {
        Obj(item)
    }
}

impl<T> Deref for Obj<T> {
    type Target = T;

    fn deref(&self) -> (payload: &T)
        ensures
            *payload == self.0,
    {
        &self.0
    }
}

impl<T> DerefMut for Obj<T> {
    fn deref_mut(&mut self) -> (payload: &mut T)
        ensures
            *payload == old(self).0,
            final(self).0 == *final(payload),
    {
        &mut self.0
    }
}

} // verus!
