use seamless::config::{signature_of, CallableFunctions, LookupError, SignatureEntry};
use seamless::error::{decimal_text, CallError, SignatureError};
use seamless::language::ruby::RubyCallError;
use seamless::language::Language;
use seamless::remote::{decode_length, encode_length, prepare as remote_prepare, reply, FrameReader};
use seamless::local::prepare as local_prepare;
use seamless::server::{call, ServerCall};
use seamless::{RemoteFunction, Signature, Type, Value};

fn sig(args: Vec<Type>, ret: Type) -> Signature {
    Signature { argument_type: args, return_type: ret }
}

fn table() -> Result<CallableFunctions, String> {
    let mut t = CallableFunctions::new();
    t.insert(
        "C",
        "libc_test.so",
        "my_func2",
        SignatureEntry::Signature(sig(vec![Type::Int32, Type::Int64], Type::Int64)),
    );
    t.insert("Rust", "librust_test.so", "fib", SignatureEntry::Signature(sig(vec![Type::Int32], Type::Int64)));
    t.insert("Rust", "librust_test.so", "broken", SignatureEntry::Invalid("missing field `return_type`".to_string()));
    Ok(t)
}

#[test]
fn table_lookup() {
    let t = table().unwrap();
    let s = t.lookup("C", "libc_test.so", "my_func2").unwrap();
    assert_eq!(s.argument_type, vec![Type::Int32, Type::Int64]);
    assert_eq!(s.return_type, Type::Int64);
    assert_eq!(t.lookup("C", "libc_test.so", "nope").unwrap_err(), LookupError::NotFound);
    assert_eq!(t.lookup("Rust", "libc_test.so", "my_func2").unwrap_err(), LookupError::NotFound);
    assert_eq!(
        t.lookup("Rust", "librust_test.so", "broken").unwrap_err(),
        LookupError::Invalid("missing field `return_type`".to_string())
    );
}

#[test]
fn lookup_after_insert_replaces() {
    let mut t = CallableFunctions::new();
    t.insert("C", "f.so", "g", SignatureEntry::Invalid("bad".to_string()));
    t.insert("C", "f.so", "g", SignatureEntry::Signature(sig(vec![], Type::Void)));
    t.insert("C", "f.so", "h", SignatureEntry::Signature(sig(vec![Type::Uint32], Type::Uint64)));
    let g = t.lookup("C", "f.so", "g").unwrap();
    assert!(g.argument_type.is_empty());
    assert_eq!(g.return_type, Type::Void);
    let h = t.lookup("C", "f.so", "h").unwrap();
    assert_eq!(h.argument_type, vec![Type::Uint32]);
}

#[test]
fn signature_errors_and_messages() {
    let missing: Result<CallableFunctions, String> = Err("No such file or directory (os error 2)".to_string());
    let e = signature_of(&missing, "C", "x.so", "f").unwrap_err();
    assert_eq!(e, SignatureError::Unavailable("No such file or directory (os error 2)".to_string()));
    assert_eq!(
        CallError::Signature(e).message(),
        "callable_functions.json: No such file or directory (os error 2)"
    );
    let e = signature_of(&table(), "C", "libc_test.so", "nothing").unwrap_err();
    assert_eq!(e, SignatureError::NotFound("nothing".to_string()));
    assert_eq!(e.message(), "function \"nothing\" not found");
    assert_eq!(
        CallError::Signature(e).message(),
        "callable_functions.json: function \"nothing\" not found"
    );
    let e = signature_of(&table(), "Rust", "librust_test.so", "broken").unwrap_err();
    assert_eq!(e.message(), "missing field `return_type`");
}

#[test]
fn call_error_messages() {
    assert_eq!(CallError::UnsupportedLanguage.message(), "unsupported language");
    assert_eq!(CallError::TooFewArguments.message(), "too few arguments");
    assert_eq!(CallError::ReturnBufferTooSmall.message(), "return buffer too small");
    assert_eq!(CallError::RemoteCallFailed.message(), "remote call failed");
    assert_eq!(CallError::ConnectFailed("refused".to_string()).message(), "Failed to connect: refused");
    assert_eq!(CallError::Remote("boom".to_string()).message(), "boom");
    assert_eq!(
        CallError::Ruby(RubyCallError::NulInFunction(12)).message(),
        "nul byte found in provided data at position: 12"
    );
}

#[test]
fn decimal_numbers() {
    assert_eq!(decimal_text(0), "0");
    assert_eq!(decimal_text(7), "7");
    assert_eq!(decimal_text(10), "10");
    assert_eq!(decimal_text(1234567890), "1234567890");
    assert_eq!(decimal_text(usize::MAX), usize::MAX.to_string());
}

#[test]
fn local_call_checks_in_order() {
    let t = table();
    let plan = local_prepare("Rust", "C", "libc_test.so", "my_func2", 2, None, &t).unwrap();
    assert_eq!(plan.caller, Language::Rust);
    assert_eq!(plan.callee, Language::C);
    assert_eq!(plan.signature.return_type, Type::Int64);
    // the caller's language is checked first
    assert_eq!(
        local_prepare("Go", "Cobol", "libc_test.so", "nothing", 0, None, &t).unwrap_err(),
        CallError::UnsupportedLanguage
    );
    assert_eq!(
        local_prepare("Rust", "Cobol", "libc_test.so", "my_func2", 2, None, &t).unwrap_err(),
        CallError::UnsupportedLanguage
    );
    assert_eq!(
        local_prepare("Rust", "C", "libc_test.so", "nothing", 0, Some(0), &t).unwrap_err(),
        CallError::Signature(SignatureError::NotFound("nothing".to_string()))
    );
    assert_eq!(
        local_prepare("Rust", "C", "libc_test.so", "my_func2", 1, Some(0), &t).unwrap_err(),
        CallError::TooFewArguments
    );
    // extra arguments are allowed
    assert!(local_prepare("Rust", "C", "libc_test.so", "my_func2", 3, Some(8), &t).is_ok());
    assert_eq!(
        local_prepare("Rust", "C", "libc_test.so", "my_func2", 2, Some(7), &t).unwrap_err(),
        CallError::ReturnBufferTooSmall
    );
    assert_eq!(
        local_prepare("Ruby", "C", "libc_test.so", "my_func2", 2, Some(std::mem::size_of::<usize>() - 1), &t)
            .unwrap_err(),
        CallError::ReturnBufferTooSmall
    );
}

#[test]
fn remote_call_checks_in_order() {
    let t = table();
    let plan = remote_prepare("rust", "Rust", "librust_test.so", "fib", 1, None, &t).unwrap();
    assert_eq!(plan.caller, Language::Rust);
    assert_eq!(plan.signature.argument_type, vec![Type::Int32]);
    // the callee's language is not checked on the client
    assert_eq!(
        remote_prepare("rust", "Cobol", "librust_test.so", "fib", 1, None, &t).unwrap_err(),
        CallError::Signature(SignatureError::NotFound("fib".to_string()))
    );
    assert_eq!(
        remote_prepare("Go", "Rust", "librust_test.so", "fib", 1, None, &t).unwrap_err(),
        CallError::UnsupportedLanguage
    );
    assert_eq!(
        remote_prepare("rust", "Rust", "librust_test.so", "fib", 0, None, &t).unwrap_err(),
        CallError::TooFewArguments
    );
    assert_eq!(
        remote_prepare("c", "Rust", "librust_test.so", "fib", 1, Some(4), &t).unwrap_err(),
        CallError::ReturnBufferTooSmall
    );
}

#[test]
fn remote_reply() {
    assert_eq!(reply(Ok(Value::Int64(55))), Ok(Value::Int64(55)));
    assert_eq!(reply(Err("unsupported language".to_string())), Err(CallError::Remote("unsupported language".to_string())));
}

#[test]
fn server_checks() {
    let t = table();
    let request = RemoteFunction {
        caller_lang_name: "Go".to_string(),
        callee_lang_name: "Rust".to_string(),
        file: "librust_test.so".to_string(),
        func_name: "fib".to_string(),
        args: vec![Value::Int32(10)],
    };
    assert_eq!(call(&request, &t), Ok(ServerCall { callee: Language::Rust, return_type: Type::Int64 }));
    let mut unknown = request.clone();
    unknown.func_name = "nope".to_string();
    assert_eq!(
        call(&unknown, &t).unwrap_err().message(),
        "callable_functions.json: function \"nope\" not found"
    );
    let mut t2 = CallableFunctions::new();
    t2.insert("Cobol", "x", "f", SignatureEntry::Signature(sig(vec![], Type::Void)));
    let odd = RemoteFunction {
        caller_lang_name: "C".to_string(),
        callee_lang_name: "Cobol".to_string(),
        file: "x".to_string(),
        func_name: "f".to_string(),
        args: vec![],
    };
    assert_eq!(call(&odd, &Ok(t2)), Err(CallError::UnsupportedLanguage));
}

#[test]
fn length_header_is_big_endian() {
    assert_eq!(encode_length(0), vec![0; 8]);
    assert_eq!(encode_length(300), vec![0, 0, 0, 0, 0, 0, 1, 0x2c]);
    assert_eq!(encode_length(u64::MAX), vec![0xff; 8]);
    assert_eq!(encode_length(0x0102030405060708), vec![1, 2, 3, 4, 5, 6, 7, 8]);
    assert_eq!(decode_length(&[0, 0, 0, 0, 0, 0, 1, 0x2c]), 300);
    assert_eq!(decode_length(&encode_length(123456789)), 123456789);
    assert_eq!(encode_length(77), 77u64.to_be_bytes().to_vec());
}

#[test]
fn frame_read_in_chunks() {
    let message: Vec<u8> = (0u8..10).collect();
    let mut reader = FrameReader::new(&encode_length(message.len() as u64));
    assert_eq!(reader.expected(), 10);
    assert!(reader.wants_more());
    reader.accept(&message[..3]);
    assert!(reader.wants_more());
    reader.accept(&message[3..9]);
    assert!(reader.wants_more());
    reader.accept(&message[9..]);
    assert!(!reader.wants_more());
    assert_eq!(reader.finish(), message);
}

#[test]
fn frame_read_stops_short_and_long() {
    let mut reader = FrameReader::new(&encode_length(4));
    reader.accept(&[1, 2]);
    // the stream ended early: what came is returned
    assert_eq!(reader.finish(), vec![1, 2]);
    let mut reader = FrameReader::new(&encode_length(2));
    reader.accept(&[1, 2, 3]);
    assert!(!reader.wants_more());
    assert_eq!(reader.finish(), vec![1, 2, 3]);
    let reader = FrameReader::new(&encode_length(0));
    assert!(!reader.wants_more());
    assert_eq!(reader.finish(), Vec::<u8>::new());
}

#[test]
fn server_runs_what_the_client_planned() {
    let t = table();
    let plan = remote_prepare("C", "Rust", "librust_test.so", "fib", 1, Some(8), &t).unwrap();
    let request = RemoteFunction {
        caller_lang_name: "C".to_string(),
        callee_lang_name: "Rust".to_string(),
        file: "librust_test.so".to_string(),
        func_name: "fib".to_string(),
        args: vec![Value::Int32(20)],
    };
    let served = call(&request, &t).unwrap();
    assert_eq!(served.return_type, plan.signature.return_type);
    assert_eq!(served.callee, Language::Rust);
}

#[test]
fn local_checks_include_remote_ones() {
    let t = table();
    let local = local_prepare("c", "C", "libc_test.so", "my_func2", 2, Some(8), &t).unwrap();
    let remote = remote_prepare("c", "C", "libc_test.so", "my_func2", 2, Some(8), &t).unwrap();
    assert_eq!(local.caller, remote.caller);
    assert_eq!(local.signature.argument_type, remote.signature.argument_type);
    assert_eq!(local.signature.return_type, remote.signature.return_type);
    assert!(remote_prepare("c", "C", "libc_test.so", "my_func2", 1, None, &t).is_err());
    assert!(local_prepare("c", "C", "libc_test.so", "my_func2", 1, None, &t).is_err());
}
