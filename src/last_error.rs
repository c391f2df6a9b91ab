//! The "last error" slot that the boundary reads after a failed call.
//!
//! Each calling thread owns one such slot; the library receives it explicitly,
//! so that two threads that fail at once never see each other's errors.

use vstd::prelude::*;

verus! {

/// Holds at most one error: the latest one set and not yet taken.
pub struct LastError<E> {
    last: Option<E>,
}

impl<E> View for LastError<E> {
    type V = Option<E>;

    closed spec fn view(&self) -> Option<E> {
        self.last
    }
}

impl<E> LastError<E> {
    /// An empty slot.
    pub fn new() -> (r: Self)
        ensures
            r@ is None,
    {
        LastError { last: None }
    }

    /// Stores `e`, replacing whatever the slot held.
    pub fn set(&mut self, e: E)
        ensures
            final(self)@ == Some(e),
    {
        self.last = Some(e);
    }

    /// Removes and returns the stored error, leaving the slot empty.
    pub fn take(&mut self) -> (r: Option<E>)
        ensures
            r == old(self)@,
            final(self)@ is None,
    {
        self.last.take()
    }

    /// The stored error, if any, left in place.
    pub fn peek(&self) -> (r: Option<&E>)
        ensures
            match r {
                Some(e) => self@ == Some(*e),
                None => self@ is None,
            },
    {
        self.last.as_ref()
    }
}

} // verus!
