//! Conversion of primitive values into the 32-bit word that the component
//! calling convention passes across the boundary.
use vstd::prelude::*;

verus! {

/// A primitive value that is passed to a host as one 32-bit word.
pub trait AsI32: Sized {
    /// The word that stands for `self` on the wire: its low 32 bits, read as
    /// a two's-complement `i32`.
    spec fn word(self) -> i32;

    /// Converts `self` into its word.
    fn as_i32(self) -> (r: i32)
        ensures
            r == self.word(),
    ;
}

/// Converts `t` into the word that carries it across the boundary.
pub fn as_i32<T: AsI32>(t: T) -> (r: i32)
    ensures
        r == t.word(),
{
    t.as_i32()
}

impl<'a, T: Copy + AsI32> AsI32 for &'a T {
    open spec fn word(self) -> i32 {
        (*self).word()
    }

    fn as_i32(self) -> (r: i32) {
        (*self).as_i32()
    }
}

impl AsI32 for i32 {
    open spec fn word(self) -> i32 {
        self
    }

    fn as_i32(self) -> (r: i32) {
        self
    }
}

impl AsI32 for u32 {
    open spec fn word(self) -> i32 {
        self as i32
    }

    fn as_i32(self) -> (r: i32) {
        self as i32
    }
}

impl AsI32 for i16 {
    open spec fn word(self) -> i32 {
        self as i32
    }

    fn as_i32(self) -> (r: i32) {
        self as i32
    }
}

impl AsI32 for u16 {
    open spec fn word(self) -> i32 {
        self as i32
    }

    fn as_i32(self) -> (r: i32) {
        self as i32
    }
}

impl AsI32 for i8 {
    open spec fn word(self) -> i32 {
        self as i32
    }

    fn as_i32(self) -> (r: i32) {
        self as i32
    }
}

impl AsI32 for u8 {
    open spec fn word(self) -> i32 {
        self as i32
    }

    fn as_i32(self) -> (r: i32) {
        self as i32
    }
}

impl AsI32 for char {
    open spec fn word(self) -> i32 {
        self as i32
    }

    fn as_i32(self) -> (r: i32) {
        self as i32
    }
}

impl AsI32 for usize {
    open spec fn word(self) -> i32 {
        self as i32
    }

    fn as_i32(self) -> (r: i32) {
        self as i32
    }
}

} // verus!
