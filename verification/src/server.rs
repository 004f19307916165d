//! The call server's side of a remote call.
use vstd::prelude::*;
use crate::Type;
use crate::config::{CallableFunctions, signature_of, signature_view, table_view, FunctionKey};
use crate::error::{CallError, CallErrorView};
use crate::language::{from_name, language_named, Language};
use crate::remote::{remote_outcome, RemoteFunction};

verus! {

/// What the server has settled before it runs a requested function: the
/// callee's language and the type of its result.
#[derive(Debug, Clone, Copy, PartialEq, Eq, Structural)]
pub struct ServerCall {
    pub callee: Language,
    pub return_type: Type,
}

/// The outcome of the server's checks of a request, in the order they are
/// made: the callee's signature, then the callee's language.
pub open spec fn server_outcome(
    callee_lang_name: Seq<char>,
    file: Seq<char>,
    func_name: Seq<char>,
    table: Result<Map<FunctionKey, Result<(Seq<Type>, Type), Seq<char>>>, Seq<char>>,
) -> Result<ServerCall, CallErrorView> {
    match signature_view(table, (callee_lang_name, file, func_name)) {
        Err(e) => Err(CallErrorView::Signature(e)),
        Ok(sig) => match language_named(callee_lang_name) {
            Err(_) => Err(CallErrorView::UnsupportedLanguage),
            Ok(callee) => Ok(ServerCall { callee, return_type: sig.1 }),
        },
    }
}

/// Makes the server's checks of a requested call; the caller's language
/// plays no part.
pub fn call(function: &RemoteFunction, functions: &Result<CallableFunctions, String>) -> (r: Result<
    ServerCall,
    CallError,
>)
    ensures
        match r {
            Ok(c) => server_outcome(
                function.callee_lang_name@,
                function.file@,
                function.func_name@,
                table_view(*functions),
            ) == Ok::<ServerCall, CallErrorView>(c),
            Err(e) => server_outcome(
                function.callee_lang_name@,
                function.file@,
                function.func_name@,
                table_view(*functions),
            ) == Err::<ServerCall, CallErrorView>(e@),
        },
{
    let sig = match signature_of(
        functions,
        function.callee_lang_name.as_str(),
        function.file.as_str(),
        function.func_name.as_str(),
    ) {
        Ok(sig) => sig,
        Err(e) => {
            return Err(CallError::Signature(e));
        },
    };
    let callee = match from_name(function.callee_lang_name.as_str()) {
        Ok(lang) => lang,
        Err(_) => {
            return Err(CallError::UnsupportedLanguage);
        },
    };
    Ok(ServerCall { callee, return_type: sig.return_type })
}

/// The server and the client agree: against the same table, a call that
/// passes the client's checks is run by the server with the result type
/// the client planned for, unless the server knows no language of that
/// name, and the server refuses no call for its signature that the client
/// accepted.
pub proof fn lemma_server_agrees_with_client(
    caller_lang_name: Seq<char>,
    callee_lang_name: Seq<char>,
    file: Seq<char>,
    func_name: Seq<char>,
    arg_count: nat,
    return_capacity: Option<usize>,
    table: Result<Map<FunctionKey, Result<(Seq<Type>, Type), Seq<char>>>, Seq<char>>,
)
    requires
        remote_outcome(
            caller_lang_name,
            callee_lang_name,
            file,
            func_name,
            arg_count,
            return_capacity,
            table,
        ) is Ok,
    ensures
        match server_outcome(callee_lang_name, file, func_name, table) {
            Ok(c) => {
                &&& language_named(callee_lang_name) == Ok::<Language, crate::language::UnsupportedLanguage>(c.callee)
                &&& c.return_type == remote_outcome(
                    caller_lang_name,
                    callee_lang_name,
                    file,
                    func_name,
                    arg_count,
                    return_capacity,
                    table,
                )->Ok_0.1.1
            },
            Err(e) => e is UnsupportedLanguage && language_named(callee_lang_name) is Err,
        },
{
}

} // verus!
