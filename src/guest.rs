//! The `add` operation of the calculator interface and the shim that exports
//! it under the component calling convention.
use vstd::prelude::*;

use crate::rt::{as_i32, AsI32};

verus! {

/// The sum of two 32-bit words, taken modulo 2^32.
pub open spec fn wrapping_sum(a: u32, b: u32) -> u32 {
    ((a as int + b as int) % 0x1_0000_0000) as u32
}

/// What a component implements to export the calculator interface.
pub trait Guest {
    /// Adds two unsigned words; a sum past `u32::MAX` wraps around.
    fn add(a: u32, b: u32) -> (r: u32)
        ensures
            r == wrapping_sum(a, b),
    ;
}

/// The component's implementation of the calculator interface.
pub struct MyType;

impl Guest for MyType {
    fn add(a: u32, b: u32) -> (r: u32) {
        a.wrapping_add(b)
    }
}

/// Entry point for the host: reads both argument words as unsigned, adds
/// them with `T`'s `add` and hands the sum back as a word.
pub fn _export_add_cabi<T: Guest>(arg0: i32, arg1: i32) -> (r: i32)
    ensures
        r == wrapping_sum(arg0 as u32, arg1 as u32) as i32,
{
    let result0 = T::add(arg0 as u32, arg1 as u32);
    as_i32(result0)
}

/// The order of the operands does not change the sum.
pub proof fn lemma_add_commutative(a: u32, b: u32)
    ensures
        wrapping_sum(a, b) == wrapping_sum(b, a),
{
}

/// Adding zero leaves a word unchanged.
pub proof fn lemma_add_identity(a: u32)
    ensures
        wrapping_sum(a, 0) == a,
{
}

} // verus!
