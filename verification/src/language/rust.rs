//! Rust callers and callees lay values out as C does.
use vstd::prelude::*;
use crate::{Type, Value};
use super::c::{C, native_bytes, native_value};
use super::native_size;

verus! {

/// The Rust calling convention, which is C's (`extern "C"`).
#[derive(Debug, Clone, Copy)]
pub struct Rust;

impl Rust {
    /// The size of `ty` in Rust's layout, which is C's.
    pub fn size_of(&self, ty: Type) -> (n: usize)
        ensures
            n == native_size(ty),
    {
        super::size_of(ty)
    }

    /// The bytes that a Rust caller finds in its buffer for `value`.
    pub fn serialize(&self, value: &Value) -> (bytes: Vec<u8>)
        ensures
            bytes@ == native_bytes(*value),
    {
        C.serialize(value)
    }

    /// The value of type `ty` that a Rust caller passes in `bytes`.
    pub fn deserialize(&self, ty: Type, bytes: &[u8]) -> (value: Value)
        requires
            bytes@.len() == native_size(ty),
        ensures
            value == native_value(ty, bytes@),
    {
        C.deserialize(ty, bytes)
    }
}

} // verus!
