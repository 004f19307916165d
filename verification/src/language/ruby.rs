//! Ruby callers and callees: integers travel as Ruby `VALUE`s, which the
//! Ruby runtime makes from and reads back into machine integers.
use vstd::prelude::*;
use crate::{Type, Value};
use super::ruby_size;
use vstd::string::{StringExecFns, StringSliceAdditionalSpecFns};

verus! {

broadcast use vstd::layout::layout_of_primitives;

/// The Ruby language, through its C runtime.
#[derive(Debug, Clone, Copy)]
pub struct Ruby;

/// How the Ruby runtime turns a machine value into a `VALUE`.
#[derive(Debug, Clone, Copy, PartialEq, Eq, Structural)]
pub enum RubyConversion {
    /// `INT2FIX` of a C `int`.
    IntToFix(i32),
    /// `LONG2FIX` of a C `long`.
    LongToFix(i64),
    /// Nothing is written: the value is `Void`.
    Nothing,
}

/// How the Ruby runtime reads a `VALUE` back into a machine value.
#[derive(Debug, Clone, Copy, PartialEq, Eq, Structural)]
pub enum RubyExtraction {
    /// `NUM2INT`, giving an `Int32`.
    NumToInt,
    /// `NUM2LONG`, giving an `Int64`.
    NumToLong,
    /// No read: the result is `Void`.
    Void,
}

/// The values that Ruby passes: signed integers and `Void`.
pub open spec fn ruby_passes(v: Value) -> bool {
    v is Int32 || v is Int64 || v is Void
}

/// The types that Ruby reads back: signed integers and `Void`.
pub open spec fn ruby_reads(ty: Type) -> bool {
    ty is Int32 || ty is Int64 || ty is Void
}

/// The conversion that makes a `VALUE` of `v`.
pub open spec fn ruby_conversion(v: Value) -> RubyConversion {
    match v {
        Value::Int32(x) => RubyConversion::IntToFix(x),
        Value::Int64(x) => RubyConversion::LongToFix(x),
        _ => RubyConversion::Nothing,
    }
}

/// The read that gives a value of type `ty`.
pub open spec fn ruby_extraction(ty: Type) -> RubyExtraction {
    match ty {
        Type::Int32 => RubyExtraction::NumToInt,
        Type::Int64 => RubyExtraction::NumToLong,
        _ => RubyExtraction::Void,
    }
}

/// `bytes` holds a zero byte at `i`, and none before it.
pub open spec fn is_first_nul(bytes: Seq<u8>, i: int) -> bool {
    &&& 0 <= i < bytes.len()
    &&& bytes[i] == 0
    &&& forall|j: int| 0 <= j < i ==> bytes[j] != 0
}

/// `bytes` holds no zero byte, so it can be a C string.
pub open spec fn nul_free(bytes: Seq<u8>) -> bool {
    forall|j: int| 0 <= j < bytes.len() ==> bytes[j] != 0
}

/// The script that a call into Ruby loads for `file`: `./file`.
pub open spec fn ruby_script(file: Seq<char>) -> Seq<char> {
    "./"@ + file
}

/// Why a call into Ruby cannot be made: a name holds a zero byte, at the
/// given position of its bytes.
#[derive(Debug, Clone, Copy, PartialEq, Eq, Structural)]
pub enum RubyCallError {
    NulInScript(usize),
    NulInFunction(usize),
}

/// Everything a call into Ruby needs: the script to load, the function to
/// call, how each argument becomes a `VALUE`, and how the result is read.
#[derive(Debug, Clone)]
pub struct RubyCall {
    pub script: String,
    pub function: String,
    pub arguments: Vec<RubyConversion>,
    pub result: RubyExtraction,
}

/// The position of the first zero byte of `bytes`, if any.
pub fn first_nul(bytes: &[u8]) -> (pos: Option<usize>)
    ensures
        match pos {
            Some(i) => is_first_nul(bytes@, i as int),
            None => nul_free(bytes@),
        },
{
    let mut i: usize = 0;
    while i < bytes.len()
        invariant
            i <= bytes@.len(),
            forall|j: int| 0 <= j < i ==> bytes@[j] != 0,
        decreases bytes@.len() - i,
    {
        if bytes[i] == 0 {
            return Some(i);
        }
        i = i + 1;
    }
    None
}

impl Ruby {
    /// The size of `ty` in Ruby's layout: a `VALUE` for an integer.
    pub fn size_of(&self, ty: Type) -> (n: usize)
        ensures
            n == ruby_size(ty),
            ty !is Void ==> n * 8 == usize::BITS,
    {
        match ty {
            Type::Void => 0,
            _ => core::mem::size_of::<usize>(),
        }
    }

    /// How `value` is handed to Ruby.
    pub fn serialize(&self, value: &Value) -> (conv: RubyConversion)
        requires
            ruby_passes(*value),
        ensures
            conv == ruby_conversion(*value),
    {
        match value {
            Value::Int32(x) => RubyConversion::IntToFix(*x),
            Value::Int64(x) => RubyConversion::LongToFix(*x),
            _ => RubyConversion::Nothing,
        }
    }

    /// How a value of type `ty` is read back from Ruby.
    pub fn deserialize(&self, ty: Type) -> (ext: RubyExtraction)
        requires
            ruby_reads(ty),
        ensures
            ext == ruby_extraction(ty),
    {
        match ty {
            Type::Int32 => RubyExtraction::NumToInt,
            Type::Int64 => RubyExtraction::NumToLong,
            _ => RubyExtraction::Void,
        }
    }

    /// Prepares a call of `func_name` in the Ruby script `file` on `args`,
    /// with a result of type `ret_ty`. The script is `./file`; it and the
    /// function name must hold no zero byte.
    pub fn call(&self, file: &str, func_name: &str, args: &Vec<Value>, ret_ty: Type) -> (r: Result<
        RubyCall,
        RubyCallError,
    >)
        requires
            forall|i: int| 0 <= i < args@.len() ==> (#[trigger] args@[i] is Int32 || args@[i] is Int64),
            ruby_reads(ret_ty),
        ensures
            match r {
                Ok(call) => {
                    &&& call.script@ == ruby_script(file@)
                    &&& call.function@ == func_name@
                    &&& nul_free(vstd::utf8::encode_utf8(ruby_script(file@)))
                    &&& nul_free(func_name.spec_bytes())
                    &&& call.arguments@.len() == args@.len()
                    &&& forall|i: int|
                        0 <= i < args@.len() ==> #[trigger] call.arguments@[i] == ruby_conversion(
                            args@[i],
                        )
                    &&& call.result == ruby_extraction(ret_ty)
                },
                Err(RubyCallError::NulInScript(p)) => is_first_nul(
                    vstd::utf8::encode_utf8(ruby_script(file@)),
                    p as int,
                ),
                Err(RubyCallError::NulInFunction(p)) => {
                    &&& nul_free(vstd::utf8::encode_utf8(ruby_script(file@)))
                    &&& is_first_nul(func_name.spec_bytes(), p as int)
                },
            },
    {
        let mut script = String::from_str("./");
        script.append(file);
        match first_nul(script.as_str().as_bytes()) {
            Some(p) => {
                return Err(RubyCallError::NulInScript(p));
            },
            None => {},
        }
        match first_nul(func_name.as_bytes()) {
            Some(p) => {
                return Err(RubyCallError::NulInFunction(p));
            },
            None => {},
        }
        let mut arguments: Vec<RubyConversion> = Vec::new();
        let mut i: usize = 0;
        while i < args.len()
            invariant
                i <= args@.len(),
                arguments@.len() == i,
                forall|j: int| 0 <= j < args@.len() ==> (#[trigger] args@[j] is Int32 || args@[j] is Int64),
                forall|j: int| 0 <= j < i ==> #[trigger] arguments@[j] == ruby_conversion(args@[j]),
            decreases args@.len() - i,
        {
            arguments.push(self.serialize(&args[i]));
            i = i + 1;
        }
        let function = func_name.to_owned();
        Ok(RubyCall { script, function, arguments, result: self.deserialize(ret_ty) })
    }
}

} // verus!
