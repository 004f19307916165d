//! C's memory layout of values: integers as their little-endian bytes,
//! `Void` as nothing.
use vstd::prelude::*;
use vstd::bytes::{
    spec_u32_from_le_bytes, spec_u32_to_le_bytes, spec_u64_from_le_bytes, spec_u64_to_le_bytes,
    u32_from_le_bytes, u32_to_le_bytes, u64_from_le_bytes, u64_to_le_bytes,
};
use crate::{Type, Value, value_type};
use super::native_size;

verus! {

/// The C calling convention.
#[derive(Debug, Clone, Copy)]
pub struct C;

/// The bytes of `v` in memory: an integer's little-endian bytes (a
/// signed one's two's complement), nothing for `Void`.
pub open spec fn native_bytes(v: Value) -> Seq<u8> {
    match v {
        Value::Int32(x) => spec_u32_to_le_bytes(x as u32),
        Value::Int64(x) => spec_u64_to_le_bytes(x as u64),
        Value::Uint32(x) => spec_u32_to_le_bytes(x),
        Value::Uint64(x) => spec_u64_to_le_bytes(x),
        Value::Void => Seq::empty(),
    }
}

/// The value of type `ty` whose memory holds `bytes`.
pub open spec fn native_value(ty: Type, bytes: Seq<u8>) -> Value {
    match ty {
        Type::Int32 => Value::Int32(spec_u32_from_le_bytes(bytes) as i32),
        Type::Int64 => Value::Int64(spec_u64_from_le_bytes(bytes) as i64),
        Type::Uint32 => Value::Uint32(spec_u32_from_le_bytes(bytes)),
        Type::Uint64 => Value::Uint64(spec_u64_from_le_bytes(bytes)),
        Type::Void => Value::Void,
    }
}

impl C {
    /// The size of `ty` in C's layout.
    pub fn size_of(&self, ty: Type) -> (n: usize)
        ensures
            n == native_size(ty),
    {
        super::size_of(ty)
    }

    /// The bytes that a C caller finds in its buffer for `value`.
    pub fn serialize(&self, value: &Value) -> (bytes: Vec<u8>)
        ensures
            bytes@ == native_bytes(*value),
    {
        match value {
            Value::Int32(x) => u32_to_le_bytes(*x as u32),
            Value::Int64(x) => u64_to_le_bytes(*x as u64),
            Value::Uint32(x) => u32_to_le_bytes(*x),
            Value::Uint64(x) => u64_to_le_bytes(*x),
            Value::Void => Vec::new(),
        }
    }

    /// The value of type `ty` that a C caller passes in `bytes`.
    pub fn deserialize(&self, ty: Type, bytes: &[u8]) -> (value: Value)
        requires
            bytes@.len() == native_size(ty),
        ensures
            value == native_value(ty, bytes@),
    {
        match ty {
            Type::Int32 => Value::Int32(u32_from_le_bytes(bytes) as i32),
            Type::Int64 => Value::Int64(u64_from_le_bytes(bytes) as i64),
            Type::Uint32 => Value::Uint32(u32_from_le_bytes(bytes)),
            Type::Uint64 => Value::Uint64(u64_from_le_bytes(bytes)),
            Type::Void => Value::Void,
        }
    }
}

/// Reading back what was written: the bytes of a value have the size of its
/// type, and reading them as that type gives the value again.
pub proof fn lemma_native_value_of_bytes(v: Value)
    ensures
        native_bytes(v).len() == native_size(value_type(v)),
        native_value(value_type(v), native_bytes(v)) == v,
{
    vstd::bytes::lemma_auto_spec_u32_to_from_le_bytes();
    vstd::bytes::lemma_auto_spec_u64_to_from_le_bytes();
    match v {
        Value::Int32(x) => {
            assert((x as u32) as i32 == x) by (bit_vector);
        },
        Value::Int64(x) => {
            assert((x as u64) as i64 == x) by (bit_vector);
        },
        _ => {},
    }
}

/// Writing back what was read: a value read from bytes of its type's size
/// has that type, and its bytes are the ones read.
pub proof fn lemma_native_bytes_of_value(ty: Type, bytes: Seq<u8>)
    requires
        bytes.len() == native_size(ty),
    ensures
        value_type(native_value(ty, bytes)) == ty,
        native_bytes(native_value(ty, bytes)) == bytes,
{
    vstd::bytes::lemma_auto_spec_u32_to_from_le_bytes();
    vstd::bytes::lemma_auto_spec_u64_to_from_le_bytes();
    match ty {
        Type::Int32 => {
            let y = spec_u32_from_le_bytes(bytes);
            assert((y as i32) as u32 == y) by (bit_vector);
        },
        Type::Int64 => {
            let y = spec_u64_from_le_bytes(bytes);
            assert((y as i64) as u64 == y) by (bit_vector);
        },
        Type::Void => {
            assert(bytes =~= Seq::<u8>::empty());
        },
        _ => {},
    }
}

} // verus!
