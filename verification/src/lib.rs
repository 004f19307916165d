//! Cross-language function calls: the values that travel between a caller
//! and a callee, how each language lays them out, where a callable
//! function's signature is found, and the framing of the wire protocol
//! between a client and a call server.
use vstd::prelude::*;

pub mod config;
pub mod error;
pub mod language;
pub mod local;
pub mod remote;
pub mod sample_callee;
pub mod server;

pub use remote::RemoteFunction;

verus! {

/// A value handed to or returned from a foreign function.
#[derive(Debug, Clone, Copy, PartialEq, Eq, Structural)]
pub enum Value {
    Int32(i32),
    Int64(i64),
    Uint32(u32),
    Uint64(u64),
    Void,
}

/// The type of a foreign function's argument or result.
#[derive(Debug, Clone, Copy, PartialEq, Eq, Structural)]
pub enum Type {
    Int32,
    Int64,
    Uint32,
    Uint64,
    Void,
}

/// The type that a value carries: its variant, without the payload.
pub open spec fn value_type(val: Value) -> Type {
    match val {
        Value::Int32(_) => Type::Int32,
        Value::Int64(_) => Type::Int64,
        Value::Uint32(_) => Type::Uint32,
        Value::Uint64(_) => Type::Uint64,
        Value::Void => Type::Void,
    }
}

/// The type of `val`.
pub fn type_of(val: &Value) -> (ty: Type)
    ensures
        ty == value_type(*val),
{
    match val {
        Value::Int32(_) => Type::Int32,
        Value::Int64(_) => Type::Int64,
        Value::Uint32(_) => Type::Uint32,
        Value::Uint64(_) => Type::Uint64,
        Value::Void => Type::Void,
    }
}

/// The signature of a callable function: its argument types in order and
/// its result type.
#[derive(Debug, Clone)]
pub struct Signature {
    pub argument_type: Vec<Type>,
    pub return_type: Type,
}

impl View for Signature {
    type V = (Seq<Type>, Type);

    open spec fn view(&self) -> (Seq<Type>, Type) {
        (self.argument_type@, self.return_type)
    }
}

impl Signature {
    /// A copy of this signature.
    pub fn duplicate(&self) -> (copy: Signature)
        ensures
            copy@ == self@,
    {
        let mut argument_type: Vec<Type> = Vec::new();
        let mut i: usize = 0;
        while i < self.argument_type.len()
            invariant
                i <= self.argument_type@.len(),
                argument_type@ == self.argument_type@.take(i as int),
            decreases self.argument_type@.len() - i,
        {
            argument_type.push(self.argument_type[i]);
            i = i + 1;
            assert(argument_type@ =~= self.argument_type@.take(i as int));
        }
        assert(argument_type@ =~= self.argument_type@);
        Signature { argument_type, return_type: self.return_type }
    }
}

/// Whether `host` names the local machine: exactly the string `localhost`.
pub fn is_localhost(host: &str) -> (local: bool)
    ensures
        local == (host@ == "localhost"@),
{
    let given: String = host.to_owned();
    let local_name: String = "localhost".to_owned();
    given == local_name
}

} // verus!
