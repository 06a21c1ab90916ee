//! The duplication capability required of buffered items.
//!
//! Advancement hands the consumed element to the caller and at the same time
//! records it in the backward history buffer, so the element type must offer
//! an explicit duplication operation that yields an independent, equal value.

use vstd::prelude::*;

verus! {

/// An explicit duplication operation with value semantics: `dup` returns a
/// value equal to the original, independent of it.
///
/// The adapter records a duplicate of every element it advances past, so its
/// item type must implement this trait.
pub trait Duplicate: Sized {
    /// Return an independent value equal to `self`.
    fn dup(&self) -> (r: Self)
        ensures
            r == *self,
    ;
}

impl Duplicate for bool {
    fn dup(&self) -> (r: bool) {
        *self
    }
}

impl Duplicate for char {
    fn dup(&self) -> (r: char) {
        *self
    }
}

impl Duplicate for u8 {
    fn dup(&self) -> (r: u8) {
        *self
    }
}

impl Duplicate for u16 {
    fn dup(&self) -> (r: u16) {
        *self
    }
}

impl Duplicate for u32 {
    fn dup(&self) -> (r: u32) {
        *self
    }
}

impl Duplicate for u64 {
    fn dup(&self) -> (r: u64) {
        *self
    }
}

impl Duplicate for usize {
    fn dup(&self) -> (r: usize) {
        *self
    }
}

impl Duplicate for i8 {
    fn dup(&self) -> (r: i8) {
        *self
    }
}

impl Duplicate for i16 {
    fn dup(&self) -> (r: i16) {
        *self
    }
}

impl Duplicate for i32 {
    fn dup(&self) -> (r: i32) {
        *self
    }
}

impl Duplicate for i64 {
    fn dup(&self) -> (r: i64) {
        *self
    }
}

impl Duplicate for isize {
    fn dup(&self) -> (r: isize) {
        *self
    }
}

} // verus!
