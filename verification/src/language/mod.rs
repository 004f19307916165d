//! The languages a function can be called from or into, and how each one
//! lays out the values that cross the boundary.
use vstd::prelude::*;
use crate::{Type, Value};

pub mod c;
pub mod ruby;
pub mod rust;

pub use c::C;
pub use ruby::Ruby;
pub use rust::Rust;
use c::{native_bytes, native_value};
use ruby::{
    RubyConversion, RubyExtraction, ruby_conversion, ruby_extraction, ruby_passes, ruby_reads,
};

verus! {

broadcast use vstd::layout::layout_of_primitives;

/// A language that takes part in a foreign call.
#[derive(Debug, Clone, Copy, PartialEq, Eq, Structural)]
pub enum Language {
    C,
    Rust,
    Ruby,
}

/// The error for a language name that names no supported language.
#[derive(Debug, Clone, Copy, PartialEq, Eq, Structural)]
pub struct UnsupportedLanguage;

/// The language a name stands for: `C`/`c`, `Rust`/`rust` and `Ruby`/`ruby`.
pub open spec fn language_named(name: Seq<char>) -> Result<Language, UnsupportedLanguage> {
    if name == "C"@ || name == "c"@ {
        Ok(Language::C)
    } else if name == "Rust"@ || name == "rust"@ {
        Ok(Language::Rust)
    } else if name == "Ruby"@ || name == "ruby"@ {
        Ok(Language::Ruby)
    } else {
        Err(UnsupportedLanguage)
    }
}

/// Looks a language up by its name.
pub fn from_name(name: &str) -> (lang: Result<Language, UnsupportedLanguage>)
    ensures
        lang == language_named(name@),
{
    let name: String = name.to_owned();
    if name == "C".to_owned() || name == "c".to_owned() {
        Ok(Language::C)
    } else if name == "Rust".to_owned() || name == "rust".to_owned() {
        Ok(Language::Rust)
    } else if name == "Ruby".to_owned() || name == "ruby".to_owned() {
        Ok(Language::Ruby)
    } else {
        Err(UnsupportedLanguage)
    }
}

/// The number of bytes a value of type `ty` takes in C's (and Rust's)
/// memory layout.
pub open spec fn native_size(ty: Type) -> nat {
    match ty {
        Type::Int32 => 4,
        Type::Int64 => 8,
        Type::Uint32 => 4,
        Type::Uint64 => 8,
        Type::Void => 0,
    }
}

/// The size of a Ruby `VALUE`, a machine word.
pub open spec fn ruby_word_size() -> nat {
    vstd::layout::size_of::<usize>()
}

/// The number of bytes a Ruby value of type `ty` takes: a whole `VALUE`
/// for any integer, nothing for `Void`.
pub open spec fn ruby_size(ty: Type) -> nat {
    match ty {
        Type::Void => 0,
        _ => ruby_word_size(),
    }
}

/// The number of bytes a value of type `ty` takes in `lang`'s layout.
pub open spec fn language_size(lang: Language, ty: Type) -> nat {
    match lang {
        Language::C => native_size(ty),
        Language::Rust => native_size(ty),
        Language::Ruby => ruby_size(ty),
    }
}

/// The size of `ty` in C's memory layout.
pub fn size_of(ty: Type) -> (n: usize)
    ensures
        n == native_size(ty),
{
    match ty {
        Type::Int32 => core::mem::size_of::<i32>(),
        Type::Int64 => core::mem::size_of::<i64>(),
        Type::Uint32 => core::mem::size_of::<u32>(),
        Type::Uint64 => core::mem::size_of::<u64>(),
        Type::Void => 0,
    }
}

impl Language {
    /// The size of `ty` in this language's layout.
    pub fn size_of(&self, ty: Type) -> (n: usize)
        ensures
            n == language_size(*self, ty),
            *self is Ruby && ty !is Void ==> n * 8 == usize::BITS,
            ty is Void ==> n == 0,
    {
        match self {
            Language::C => C.size_of(ty),
            Language::Rust => Rust.size_of(ty),
            Language::Ruby => Ruby.size_of(ty),
        }
    }
}

/// What a language makes of a value it receives: the bytes that hold it,
/// or, in Ruby, the conversion that makes its `VALUE`.
#[derive(Debug, Clone)]
pub enum Encoding {
    Bytes(Vec<u8>),
    Ruby(RubyConversion),
}

/// How a language hands over a value of some type: decoded from the bytes
/// that hold it, or, in Ruby, read from a `VALUE` by the runtime.
#[derive(Debug, Clone, Copy, PartialEq, Eq, Structural)]
pub enum Decoding {
    Value(Value),
    Ruby(RubyExtraction),
}

/// The values that `lang` can receive.
pub open spec fn accepts(lang: Language, v: Value) -> bool {
    lang is Ruby ==> ruby_passes(v)
}

/// The types whose values `lang` can hand over.
pub open spec fn hands_over(lang: Language, ty: Type) -> bool {
    lang is Ruby ==> ruby_reads(ty)
}

/// What `lang` makes of `v`.
pub open spec fn encoding_of(lang: Language, v: Value) -> EncodingView {
    match lang {
        Language::Ruby => EncodingView::Ruby(ruby_conversion(v)),
        _ => EncodingView::Bytes(native_bytes(v)),
    }
}

/// The view of an encoding.
pub enum EncodingView {
    Bytes(Seq<u8>),
    Ruby(RubyConversion),
}

impl View for Encoding {
    type V = EncodingView;

    open spec fn view(&self) -> EncodingView {
        match self {
            Encoding::Bytes(b) => EncodingView::Bytes(b@),
            Encoding::Ruby(c) => EncodingView::Ruby(*c),
        }
    }
}

/// How `lang` hands over a value of type `ty` held in `bytes`.
pub open spec fn decoding_of(lang: Language, ty: Type, bytes: Seq<u8>) -> Decoding {
    match lang {
        Language::Ruby => Decoding::Ruby(ruby_extraction(ty)),
        _ => Decoding::Value(native_value(ty, bytes)),
    }
}

impl Language {
    /// What this language makes of `value`, as a result it receives.
    pub fn serialize(&self, value: &Value) -> (enc: Encoding)
        requires
            accepts(*self, *value),
        ensures
            enc@ == encoding_of(*self, *value),
    {
        match self {
            Language::C => Encoding::Bytes(C.serialize(value)),
            Language::Rust => Encoding::Bytes(Rust.serialize(value)),
            Language::Ruby => Encoding::Ruby(Ruby.serialize(value)),
        }
    }

    /// How this language hands over an argument of type `ty`; C and Rust
    /// pass its bytes, which take `size_of(ty)` bytes, Ruby a `VALUE`.
    pub fn deserialize(&self, ty: Type, bytes: &[u8]) -> (dec: Decoding)
        requires
            hands_over(*self, ty),
            !(*self is Ruby) ==> bytes@.len() == native_size(ty),
        ensures
            dec == decoding_of(*self, ty, bytes@),
    {
        match self {
            Language::C => Decoding::Value(C.deserialize(ty, bytes)),
            Language::Rust => Decoding::Value(Rust.deserialize(ty, bytes)),
            Language::Ruby => Decoding::Ruby(Ruby.deserialize(ty)),
        }
    }
}

/// The `libffi` type descriptor that a call passes for an argument or
/// expects for a result.
#[derive(Debug, Clone, Copy, PartialEq, Eq, Structural)]
pub enum FfiType {
    Sint32,
    Sint64,
    Uint32,
    Uint64,
    Void,
}

/// The descriptor that belongs to a type.
pub open spec fn ffi_type_for(ty: Type) -> FfiType {
    match ty {
        Type::Int32 => FfiType::Sint32,
        Type::Int64 => FfiType::Sint64,
        Type::Uint32 => FfiType::Uint32,
        Type::Uint64 => FfiType::Uint64,
        Type::Void => FfiType::Void,
    }
}

/// The descriptor for passing `v`.
pub fn ffi_type_of(v: &Value) -> (t: FfiType)
    ensures
        t == ffi_type_for(crate::value_type(*v)),
{
    match v {
        Value::Int32(_) => FfiType::Sint32,
        Value::Int64(_) => FfiType::Sint64,
        Value::Uint32(_) => FfiType::Uint32,
        Value::Uint64(_) => FfiType::Uint64,
        Value::Void => FfiType::Void,
    }
}

/// The descriptor for a value of type `v`.
pub fn ffi_type_map(v: &Type) -> (t: FfiType)
    ensures
        t == ffi_type_for(*v),
{
    match v {
        Type::Int32 => FfiType::Sint32,
        Type::Int64 => FfiType::Sint64,
        Type::Uint32 => FfiType::Uint32,
        Type::Uint64 => FfiType::Uint64,
        Type::Void => FfiType::Void,
    }
}

/// A value is described by the descriptor of its type and by no other: the
/// descriptors of two types are the same only when the types are.
pub proof fn lemma_ffi_descriptor_of_value(v: Value, ty: Type)
    ensures
        ffi_type_for(crate::value_type(v)) == ffi_type_for(ty) <==> crate::value_type(v) == ty,
{
}

/// The buffer a caller is given for a result is as large as the value's
/// type takes in the caller's language, and what the caller's language
/// makes of the value fills it: C and Rust write exactly that many bytes,
/// Ruby writes a whole `VALUE` for an integer and nothing for `Void`.
pub proof fn lemma_encoding_fills_buffer(lang: Language, v: Value)
    ensures
        !(lang is Ruby) ==> (encoding_of(lang, v) matches EncodingView::Bytes(b) && b.len()
            == language_size(lang, crate::value_type(v))),
        lang is Ruby ==> (v is Void <==> language_size(lang, crate::value_type(v)) == 0),
{
    c::lemma_native_value_of_bytes(v);
}

/// Handing a value over in C or Rust and receiving it back in the same
/// language gives the value again.
pub proof fn lemma_native_languages_roundtrip(lang: Language, v: Value)
    requires
        !(lang is Ruby),
    ensures
        encoding_of(lang, v) matches EncodingView::Bytes(b) && decoding_of(
            lang,
            crate::value_type(v),
            b,
        ) == Decoding::Value(v),
{
    c::lemma_native_value_of_bytes(v);
}

/// Ruby holds every integer in a `VALUE`, one machine word, whatever the
/// integer's width, and `Void` in nothing; C and Rust agree on every size.
pub proof fn lemma_ruby_size_is_word(ty: Type)
    ensures
        ty !is Void ==> language_size(Language::Ruby, ty) == vstd::layout::size_of::<usize>(),
        ty !is Void ==> language_size(Language::Ruby, ty) * 8 == usize::BITS,
        ty is Void ==> language_size(Language::Ruby, ty) == 0,
        language_size(Language::C, ty) == language_size(Language::Rust, ty),
{
}

/// What a Ruby caller receives for a result: `INT2FIX` of an `Int32`,
/// `LONG2FIX` of an `Int64`, nothing for `Void`; of the values Ruby takes,
/// only `Void` leaves the caller's buffer unwritten.
pub proof fn lemma_ruby_encoding(v: Value)
    ensures
        v matches Value::Int32(x) ==> encoding_of(Language::Ruby, v) == EncodingView::Ruby(
            RubyConversion::IntToFix(x),
        ),
        v matches Value::Int64(x) ==> encoding_of(Language::Ruby, v) == EncodingView::Ruby(
            RubyConversion::LongToFix(x),
        ),
        v is Void ==> encoding_of(Language::Ruby, v) == EncodingView::Ruby(RubyConversion::Nothing),
        ruby_passes(v) ==> (encoding_of(Language::Ruby, v) == EncodingView::Ruby(
            RubyConversion::Nothing,
        ) <==> v is Void),
{
}

/// What a Ruby caller's argument is read as: `NUM2INT` for an `Int32`,
/// `NUM2LONG` for an `Int64`, no read for `Void`, whatever bytes stand
/// beside it; so the value read has the type asked for.
pub proof fn lemma_ruby_decoding(ty: Type, bytes: Seq<u8>)
    ensures
        ty is Int32 ==> decoding_of(Language::Ruby, ty, bytes) == Decoding::Ruby(RubyExtraction::NumToInt),
        ty is Int64 ==> decoding_of(Language::Ruby, ty, bytes) == Decoding::Ruby(
            RubyExtraction::NumToLong,
        ),
        ty is Void ==> decoding_of(Language::Ruby, ty, bytes) == Decoding::Ruby(RubyExtraction::Void),
        decoding_of(Language::Ruby, ty, bytes) == decoding_of(Language::Ruby, ty, Seq::empty()),
{
}

} // verus!
