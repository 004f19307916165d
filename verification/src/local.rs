//! Calls made on this machine: the checks that come before the callee runs.
use vstd::prelude::*;
use crate::{Signature, Type};
use crate::config::{CallableFunctions, signature_of, signature_view, table_view, FunctionKey};
use crate::error::{CallError, CallErrorView};
use crate::language::{from_name, language_named, language_size, Language};
use crate::remote::remote_outcome;

verus! {

/// What a local call has settled before the callee runs: the caller's and
/// the callee's languages and the callee's signature.
#[derive(Debug, Clone)]
pub struct LocalPlan {
    pub caller: Language,
    pub callee: Language,
    pub signature: Signature,
}

impl View for LocalPlan {
    type V = (Language, Language, (Seq<Type>, Type));

    open spec fn view(&self) -> (Language, Language, (Seq<Type>, Type)) {
        (self.caller, self.callee, self.signature@)
    }
}

/// The outcome of the checks of a local call, in the order they are made:
/// the caller's language, the callee's language, the callee's signature,
/// the number of arguments, and, where the caller gave a buffer for the
/// result, its size.
pub open spec fn local_outcome(
    caller_lang_name: Seq<char>,
    callee_lang_name: Seq<char>,
    file: Seq<char>,
    func_name: Seq<char>,
    arg_count: nat,
    return_capacity: Option<usize>,
    table: Result<Map<FunctionKey, Result<(Seq<Type>, Type), Seq<char>>>, Seq<char>>,
) -> Result<(Language, Language, (Seq<Type>, Type)), CallErrorView> {
    match language_named(caller_lang_name) {
        Err(_) => Err(CallErrorView::UnsupportedLanguage),
        Ok(caller) => match language_named(callee_lang_name) {
            Err(_) => Err(CallErrorView::UnsupportedLanguage),
            Ok(callee) => match signature_view(table, (callee_lang_name, file, func_name)) {
                Err(e) => Err(CallErrorView::Signature(e)),
                Ok(sig) => if arg_count < sig.0.len() {
                    Err(CallErrorView::TooFewArguments)
                } else if return_capacity matches Some(cap) && cap < language_size(caller, sig.1) {
                    Err(CallErrorView::ReturnBufferTooSmall)
                } else {
                    Ok((caller, callee, sig))
                },
            },
        },
    }
}

/// Makes the checks of a call from `caller_lang_name` of `func_name` in
/// `file` of `callee_lang_name`, with `arg_count` arguments and, where
/// given, a buffer of `return_capacity` bytes for the result.
pub fn prepare(
    caller_lang_name: &str,
    callee_lang_name: &str,
    file: &str,
    func_name: &str,
    arg_count: usize,
    return_capacity: Option<usize>,
    functions: &Result<CallableFunctions, String>,
) -> (r: Result<LocalPlan, CallError>)
    ensures
        match r {
            Ok(plan) => local_outcome(
                caller_lang_name@,
                callee_lang_name@,
                file@,
                func_name@,
                arg_count as nat,
                return_capacity,
                table_view(*functions),
            ) == Ok::<(Language, Language, (Seq<Type>, Type)), CallErrorView>(plan@),
            Err(e) => local_outcome(
                caller_lang_name@,
                callee_lang_name@,
                file@,
                func_name@,
                arg_count as nat,
                return_capacity,
                table_view(*functions),
            ) == Err::<(Language, Language, (Seq<Type>, Type)), CallErrorView>(e@),
        },
{
    let caller = match from_name(caller_lang_name) {
        Ok(lang) => lang,
        Err(_) => {
            return Err(CallError::UnsupportedLanguage);
        },
    };
    let callee = match from_name(callee_lang_name) {
        Ok(lang) => lang,
        Err(_) => {
            return Err(CallError::UnsupportedLanguage);
        },
    };
    let signature = match signature_of(functions, callee_lang_name, file, func_name) {
        Ok(sig) => sig,
        Err(e) => {
            return Err(CallError::Signature(e));
        },
    };
    if arg_count < signature.argument_type.len() {
        return Err(CallError::TooFewArguments);
    }
    match return_capacity {
        Some(cap) => {
            if cap < caller.size_of(signature.return_type) {
                return Err(CallError::ReturnBufferTooSmall);
            }
        },
        None => {},
    }
    Ok(LocalPlan { caller, callee, signature })
}

/// A call made on this machine is checked at least as strictly as one made
/// through a server: whatever passes the local checks passes the remote
/// ones, with the same caller's language and signature, and whatever the
/// remote checks refuse, the local ones refuse too.
pub proof fn lemma_local_checks_include_remote(
    caller_lang_name: Seq<char>,
    callee_lang_name: Seq<char>,
    file: Seq<char>,
    func_name: Seq<char>,
    arg_count: nat,
    return_capacity: Option<usize>,
    table: Result<Map<FunctionKey, Result<(Seq<Type>, Type), Seq<char>>>, Seq<char>>,
)
    ensures
        local_outcome(
            caller_lang_name,
            callee_lang_name,
            file,
            func_name,
            arg_count,
            return_capacity,
            table,
        ) matches Ok(l) ==> remote_outcome(
            caller_lang_name,
            callee_lang_name,
            file,
            func_name,
            arg_count,
            return_capacity,
            table,
        ) == Ok::<(Language, (Seq<Type>, Type)), CallErrorView>((l.0, l.2)),
        remote_outcome(
            caller_lang_name,
            callee_lang_name,
            file,
            func_name,
            arg_count,
            return_capacity,
            table,
        ) is Err ==> local_outcome(
            caller_lang_name,
            callee_lang_name,
            file,
            func_name,
            arg_count,
            return_capacity,
            table,
        ) is Err,
{
}

/// The local checks add to the remote ones only the check of the callee's
/// language: with a known callee's language, a local call is accepted
/// exactly when the same call through a server would be; and a local call
/// refused for its buffer was given one smaller than the result's size in
/// the caller's language.
pub proof fn lemma_local_return_buffer(
    caller_lang_name: Seq<char>,
    callee_lang_name: Seq<char>,
    file: Seq<char>,
    func_name: Seq<char>,
    arg_count: nat,
    return_capacity: Option<usize>,
    table: Result<Map<FunctionKey, Result<(Seq<Type>, Type), Seq<char>>>, Seq<char>>,
)
    ensures
        language_named(callee_lang_name) is Ok ==> (local_outcome(
            caller_lang_name,
            callee_lang_name,
            file,
            func_name,
            arg_count,
            return_capacity,
            table,
        ) is Ok <==> remote_outcome(
            caller_lang_name,
            callee_lang_name,
            file,
            func_name,
            arg_count,
            return_capacity,
            table,
        ) is Ok),
        (local_outcome(
            caller_lang_name,
            callee_lang_name,
            file,
            func_name,
            arg_count,
            return_capacity,
            table,
        ) matches Err(CallErrorView::ReturnBufferTooSmall)) ==> ({
            &&& language_named(caller_lang_name) is Ok
            &&& signature_view(table, (callee_lang_name, file, func_name)) is Ok
            &&& return_capacity is Some
            &&& return_capacity->Some_0 < language_size(
                language_named(caller_lang_name)->Ok_0,
                signature_view(table, (callee_lang_name, file, func_name))->Ok_0.1,
            )
        }),
{
}

} // verus!
