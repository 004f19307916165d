use seamless::language::c::C;
use seamless::language::ruby::{first_nul, Ruby, RubyCallError, RubyConversion, RubyExtraction};
use seamless::language::rust::Rust;
use seamless::language::{
    ffi_type_map, ffi_type_of, from_name, size_of, Decoding, Encoding, FfiType, Language,
    UnsupportedLanguage,
};
use seamless::sample_callee::fib;
use seamless::{is_localhost, type_of, Type, Value};

#[test]
fn type_of_each_variant() {
    assert_eq!(type_of(&Value::Int32(-7)), Type::Int32);
    assert_eq!(type_of(&Value::Int64(1 << 40)), Type::Int64);
    assert_eq!(type_of(&Value::Uint32(7)), Type::Uint32);
    assert_eq!(type_of(&Value::Uint64(u64::MAX)), Type::Uint64);
    assert_eq!(type_of(&Value::Void), Type::Void);
}

#[test]
fn localhost_is_recognised_exactly() {
    assert!(is_localhost("localhost"));
    assert!(!is_localhost("127.0.0.1"));
    assert!(!is_localhost("Localhost"));
    assert!(!is_localhost("localhost:3333"));
    assert!(!is_localhost(""));
}

#[test]
fn language_names() {
    assert_eq!(from_name("C"), Ok(Language::C));
    assert_eq!(from_name("c"), Ok(Language::C));
    assert_eq!(from_name("Rust"), Ok(Language::Rust));
    assert_eq!(from_name("rust"), Ok(Language::Rust));
    assert_eq!(from_name("Ruby"), Ok(Language::Ruby));
    assert_eq!(from_name("ruby"), Ok(Language::Ruby));
    assert_eq!(from_name("RUST"), Err(UnsupportedLanguage));
    assert_eq!(from_name("python"), Err(UnsupportedLanguage));
    assert_eq!(from_name(""), Err(UnsupportedLanguage));
}

#[test]
fn native_sizes() {
    assert_eq!(size_of(Type::Int32), 4);
    assert_eq!(size_of(Type::Int64), 8);
    assert_eq!(size_of(Type::Uint32), 4);
    assert_eq!(size_of(Type::Uint64), 8);
    assert_eq!(size_of(Type::Void), 0);
    assert_eq!(Language::C.size_of(Type::Int64), 8);
    assert_eq!(Language::Rust.size_of(Type::Uint32), 4);
    assert_eq!(C.size_of(Type::Void), 0);
    assert_eq!(Rust.size_of(Type::Int32), 4);
}

#[test]
fn ruby_sizes_are_machine_words() {
    let word = std::mem::size_of::<usize>();
    assert_eq!(Ruby.size_of(Type::Int32), word);
    assert_eq!(Ruby.size_of(Type::Uint64), word);
    assert_eq!(Ruby.size_of(Type::Void), 0);
    assert_eq!(Language::Ruby.size_of(Type::Int64), word);
}

#[test]
fn native_bytes_are_little_endian() {
    assert_eq!(C.serialize(&Value::Int32(-2)), vec![0xfe, 0xff, 0xff, 0xff]);
    assert_eq!(C.serialize(&Value::Int32(0x01020304)), vec![4, 3, 2, 1]);
    assert_eq!(Rust.serialize(&Value::Uint32(0xdeadbeef)), vec![0xef, 0xbe, 0xad, 0xde]);
    assert_eq!(
        Rust.serialize(&Value::Int64(10000000000000000)),
        10000000000000000i64.to_le_bytes().to_vec()
    );
    assert_eq!(
        C.serialize(&Value::Uint64(0x0102030405060708)),
        vec![8, 7, 6, 5, 4, 3, 2, 1]
    );
    assert_eq!(C.serialize(&Value::Void), Vec::<u8>::new());
}

#[test]
fn native_bytes_read_back() {
    assert_eq!(C.deserialize(Type::Int32, &[0xfe, 0xff, 0xff, 0xff]), Value::Int32(-2));
    assert_eq!(Rust.deserialize(Type::Uint32, &[0xef, 0xbe, 0xad, 0xde]), Value::Uint32(0xdeadbeef));
    assert_eq!(
        C.deserialize(Type::Int64, &(-5i64).to_le_bytes()),
        Value::Int64(-5)
    );
    assert_eq!(
        C.deserialize(Type::Uint64, &[8, 7, 6, 5, 4, 3, 2, 1]),
        Value::Uint64(0x0102030405060708)
    );
    assert_eq!(C.deserialize(Type::Void, &[]), Value::Void);
}

#[test]
fn native_roundtrip_on_concrete_values() {
    let values = [
        Value::Int32(i32::MIN),
        Value::Int32(123),
        Value::Int64(i64::MIN),
        Value::Int64(10000000000000000),
        Value::Uint32(u32::MAX),
        Value::Uint64(u64::MAX),
        Value::Void,
    ];
    for v in values.iter() {
        let bytes = C.serialize(v);
        assert_eq!(bytes.len(), size_of(type_of(v)));
        assert_eq!(C.deserialize(type_of(v), &bytes), *v);
        assert_eq!(Rust.deserialize(type_of(v), &Rust.serialize(v)), *v);
    }
}

#[test]
fn language_dispatch() {
    match Language::C.serialize(&Value::Int32(1)) {
        Encoding::Bytes(b) => assert_eq!(b, vec![1, 0, 0, 0]),
        Encoding::Ruby(_) => panic!("C writes bytes"),
    }
    match Language::Ruby.serialize(&Value::Int64(-3)) {
        Encoding::Ruby(c) => assert_eq!(c, RubyConversion::LongToFix(-3)),
        Encoding::Bytes(_) => panic!("Ruby converts"),
    }
    assert_eq!(
        Language::Rust.deserialize(Type::Uint32, &[1, 0, 0, 0]),
        Decoding::Value(Value::Uint32(1))
    );
    assert_eq!(
        Language::Ruby.deserialize(Type::Int32, &[]),
        Decoding::Ruby(RubyExtraction::NumToInt)
    );
}

#[test]
fn ruby_conversions() {
    assert_eq!(Ruby.serialize(&Value::Int32(5)), RubyConversion::IntToFix(5));
    assert_eq!(Ruby.serialize(&Value::Int64(-9)), RubyConversion::LongToFix(-9));
    assert_eq!(Ruby.serialize(&Value::Void), RubyConversion::Nothing);
    assert_eq!(Ruby.deserialize(Type::Int32), RubyExtraction::NumToInt);
    assert_eq!(Ruby.deserialize(Type::Int64), RubyExtraction::NumToLong);
    assert_eq!(Ruby.deserialize(Type::Void), RubyExtraction::Void);
}

#[test]
fn ruby_call_request() {
    let args = vec![Value::Int32(1), Value::Int64(2)];
    let call = Ruby.call("lib.rb", "add", &args, Type::Int64).unwrap();
    assert_eq!(call.script, "./lib.rb");
    assert_eq!(call.function, "add");
    assert_eq!(
        call.arguments,
        vec![RubyConversion::IntToFix(1), RubyConversion::LongToFix(2)]
    );
    assert_eq!(call.result, RubyExtraction::NumToLong);
}

#[test]
fn ruby_call_refuses_zero_bytes() {
    let args: Vec<Value> = Vec::new();
    assert_eq!(
        Ruby.call("a\0b.rb", "f", &args, Type::Void).unwrap_err(),
        RubyCallError::NulInScript(3)
    );
    assert_eq!(
        Ruby.call("a.rb", "fun\0", &args, Type::Void).unwrap_err(),
        RubyCallError::NulInFunction(3)
    );
    assert_eq!(
        Ruby.call("\0", "\0", &args, Type::Void).unwrap_err(),
        RubyCallError::NulInScript(2)
    );
}

#[test]
fn first_zero_byte() {
    assert_eq!(first_nul(b"abc"), None);
    assert_eq!(first_nul(b""), None);
    assert_eq!(first_nul(b"a\0b\0"), Some(1));
    assert_eq!(first_nul(b"\0"), Some(0));
}

#[test]
fn ffi_descriptors() {
    assert_eq!(ffi_type_of(&Value::Int32(0)), FfiType::Sint32);
    assert_eq!(ffi_type_of(&Value::Int64(0)), FfiType::Sint64);
    assert_eq!(ffi_type_of(&Value::Uint32(0)), FfiType::Uint32);
    assert_eq!(ffi_type_of(&Value::Uint64(0)), FfiType::Uint64);
    assert_eq!(ffi_type_of(&Value::Void), FfiType::Void);
    assert_eq!(ffi_type_map(&Type::Int32), FfiType::Sint32);
    assert_eq!(ffi_type_map(&Type::Int64), FfiType::Sint64);
    assert_eq!(ffi_type_map(&Type::Uint32), FfiType::Uint32);
    assert_eq!(ffi_type_map(&Type::Uint64), FfiType::Uint64);
    assert_eq!(ffi_type_map(&Type::Void), FfiType::Void);
    for v in [Value::Int32(3), Value::Uint64(4), Value::Void].iter() {
        assert_eq!(ffi_type_of(v), ffi_type_map(&type_of(v)));
    }
}

#[test]
fn fibonacci_sample() {
    assert_eq!(fib(0), 0);
    assert_eq!(fib(1), 1);
    assert_eq!(fib(2), 1);
    assert_eq!(fib(10), 55);
    assert_eq!(fib(20), 6765);
    assert_eq!(fib(-3), -3);
}
