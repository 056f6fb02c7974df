//! Shared handles to values owned elsewhere: by the application (`Ao`), by
//! the game runtime (`Gor`), or by the presenter service (`PresenterServiceLease`).
//! The borrow checker guarantees what the owners promise: the value outlives
//! every handle to it.

use vstd::prelude::*;

verus! {

/// A read only handle to a value owned by the application context.
pub struct Ao<'a, T> {
    value: &'a T,
}

impl<'a, T> View for Ao<'a, T> {
    type V = T;

    closed spec fn view(&self) -> T {
        *self.value
    }
}

impl<'a, T> Ao<'a, T> {
    pub fn new(original: &'a Box<T>) -> (r: Self)
        ensures
            r@ == **original,
    {
        Ao { value: &**original }
    }

    /// The value the handle refers to.
    pub fn get(&self) -> (r: &'a T)
        ensures
            *r == self@,
    {
        self.value
    }
}

impl<'a, T> Clone for Ao<'a, T> {
    fn clone(&self) -> (r: Self)
        ensures
            r@ == self@,
    {
        Ao { value: self.value }
    }
}

/// A read only handle to a value owned by the game runtime.
pub struct Gor<'a, T> {
    value: &'a T,
}

impl<'a, T> View for Gor<'a, T> {
    type V = T;

    closed spec fn view(&self) -> T {
        *self.value
    }
}

impl<'a, T> Gor<'a, T> {
    pub fn new(original: &'a Box<T>) -> (r: Self)
        ensures
            r@ == **original,
    {
        Gor { value: &**original }
    }

    /// The value the handle refers to.
    pub fn get(&self) -> (r: &'a T)
        ensures
            *r == self@,
    {
        self.value
    }
}

impl<'a, T> Clone for Gor<'a, T> {
    fn clone(&self) -> (r: Self)
        ensures
            r@ == self@,
    {
        Gor { value: self.value }
    }
}

/// A presenter's loan of the state the presenter service keeps for it: the
/// presenter may read and change the state while the loan lasts, and the
/// service sees the state the loan leaves behind.
pub struct PresenterServiceLease<'a, T> {
    pub loaned: &'a mut T,
}

impl<'a, T> PresenterServiceLease<'a, T> {
    pub fn new(original: &'a mut T) -> (r: Self)
        ensures
            *r.loaned == *old(original),
            *final(r.loaned) == *final(original),
    {
        PresenterServiceLease { loaned: original }
    }

    /// The loaned state.
    pub fn get(&self) -> (r: &T)
        ensures
            *r == *old(self.loaned),
    {
        self.loaned
    }

    /// Replace the loaned state.
    pub fn set(&mut self, value: T)
        ensures
            *final(self).loaned == value,
            *final(final(self).loaned) == *final(old(self).loaned),
    {
        *self.loaned = value;
    }
}

} // verus!
