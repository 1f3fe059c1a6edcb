//! Backing storage abstraction for [`crate::StringWrapper`].
//!
//! A `Buffer` is any fixed-size, randomly addressable byte container. Its
//! abstract contents are the byte sequence `bytes()`; writing one byte keeps
//! the length unchanged, so the capacity of a buffer never changes.
use vstd::prelude::*;

verus! {

/// A fixed-size byte store: the backing storage of a `StringWrapper`.
///
/// All methods are specified against the single abstraction `bytes()`, and
/// `set_byte` keeps the length of `bytes()` unchanged, so every implementation
/// has a fixed capacity.
pub trait Buffer: Sized {
    /// The bytes currently held, as a mathematical sequence.
    spec fn bytes(&self) -> Seq<u8>;

    /// The total number of bytes the storage holds.
    fn size(&self) -> (n: usize)
        ensures
            n == self.bytes().len(),
    ;

    /// Read the byte at index `i`.
    fn byte_at(&self, i: usize) -> (b: u8)
        requires
            i < self.bytes().len(),
        ensures
            b == self.bytes()[i as int],
    ;

    /// Overwrite the byte at index `i`, leaving all other bytes unchanged.
    fn set_byte(&mut self, i: usize, b: u8)
        requires
            i < old(self).bytes().len(),
        ensures
            final(self).bytes() == old(self).bytes().update(i as int, b),
    ;

    /// Borrow the whole storage as a byte slice.
    fn as_byte_slice(&self) -> (r: &[u8])
        ensures
            r@ == self.bytes(),
    ;
}

impl Buffer for Vec<u8> {
    open spec fn bytes(&self) -> Seq<u8> {
        self@
    }

    fn size(&self) -> (n: usize) {
        self.len()
    }

    fn byte_at(&self, i: usize) -> (b: u8) {
        self[i]
    }

    fn set_byte(&mut self, i: usize, b: u8) {
        self[i] = b;
    }

    fn as_byte_slice(&self) -> (r: &[u8]) {
        self.as_slice()
    }
}

impl<T> Buffer for Box<T> where T: Buffer {
    open spec fn bytes(&self) -> Seq<u8> {
        (**self).bytes()
    }

    fn size(&self) -> (n: usize) {
        (**self).size()
    }

    fn byte_at(&self, i: usize) -> (b: u8) {
        (**self).byte_at(i)
    }

    fn set_byte(&mut self, i: usize, b: u8) {
        (**self).set_byte(i, b);
    }

    fn as_byte_slice(&self) -> (r: &[u8]) {
        (**self).as_byte_slice()
    }
}

impl<const N: usize> Buffer for [u8; N] {
    open spec fn bytes(&self) -> Seq<u8> {
        self@
    }

    fn size(&self) -> (n: usize) {
        self.as_slice().len()
    }

    fn byte_at(&self, i: usize) -> (b: u8) {
        self[i]
    }

    fn set_byte(&mut self, i: usize, b: u8) {
        self[i] = b;
    }

    fn as_byte_slice(&self) -> (r: &[u8]) {
        self.as_slice()
    }
}

} // verus!
