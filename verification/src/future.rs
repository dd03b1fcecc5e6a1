//! A single-assignment cell used by the feature cache.
//!
//! One caller becomes responsible for filling the cell; everyone else reads
//! the value once it is there. Blocking until the value arrives is the
//! caller's affair (the library only records whether the value is present),
//! so `wait` demands a filled cell and merely hands the value out.

use vstd::prelude::*;

verus! {

/// A write-once value: empty until `set` stores something, then readable
/// through `wait`.
#[derive(Clone, Copy)]
pub struct Future<T> {
    value: Option<T>,
}

impl<T: Copy> Future<T> {
    /// The stored value, if any.
    pub closed spec fn view(&self) -> Option<T> {
        self.value
    }

    /// A fresh, still empty cell.
    pub fn new() -> (r: Future<T>)
        ensures
            r@ is None,
    {
        Future { value: None }
    }

    /// Whether a value has been stored.
    pub fn is_set(&self) -> (r: bool)
        ensures
            r == (self@ is Some),
    {
        match self.value {
            Some(_) => true,
            None => false,
        }
    }

    /// Read the stored value; the caller must already know it is there.
    pub fn wait(&mut self) -> (r: T)
        requires
            old(self)@ is Some,
        ensures
            final(self)@ == old(self)@,
            r == old(self)@->Some_0,
    {
        match self.value {
            Some(v) => v,
            None => unreached(),
        }
    }

    /// Store a value. A later `set` overwrites an earlier one; the cache
    /// built on top only ever fills a cell once.
    pub fn set(&mut self, value: T)
        ensures
            final(self)@ == Some(value),
    {
        self.value = Some(value);
    }
}

} // verus!
