//! Why a foreign call fails, and the message that says so.
use vstd::prelude::*;
use vstd::string::StringExecFns;
use crate::language::ruby::RubyCallError;

verus! {

/// Why the table of callable functions gives no signature.
#[derive(Debug, Clone, PartialEq, Eq)]
pub enum SignatureError {
    /// The table itself could not be had; the reason is given.
    Unavailable(String),
    /// The table has no entry for the named function.
    NotFound(String),
    /// The entry for the function is not a signature; the reason is given.
    Invalid(String),
}

/// Why a foreign call fails.
#[derive(Debug, Clone, PartialEq, Eq)]
pub enum CallError {
    /// A language name names no supported language.
    UnsupportedLanguage,
    /// The callee's signature could not be found.
    Signature(SignatureError),
    /// Fewer arguments were passed than the signature takes.
    TooFewArguments,
    /// The caller's buffer cannot hold the result.
    ReturnBufferTooSmall,
    /// A name handed to Ruby holds a zero byte.
    Ruby(RubyCallError),
    /// The call server could not be reached; the reason is given.
    ConnectFailed(String),
    /// The call server gave no reply.
    RemoteCallFailed,
    /// The call server answered with this error.
    Remote(String),
}

/// A signature error, its texts taken as character sequences.
pub enum SignatureErrorView {
    Unavailable(Seq<char>),
    NotFound(Seq<char>),
    Invalid(Seq<char>),
}

/// A call error, its texts taken as character sequences.
pub enum CallErrorView {
    UnsupportedLanguage,
    Signature(SignatureErrorView),
    TooFewArguments,
    ReturnBufferTooSmall,
    Ruby(RubyCallError),
    ConnectFailed(Seq<char>),
    RemoteCallFailed,
    Remote(Seq<char>),
}

impl View for SignatureError {
    type V = SignatureErrorView;

    open spec fn view(&self) -> SignatureErrorView {
        match self {
            SignatureError::Unavailable(r) => SignatureErrorView::Unavailable(r@),
            SignatureError::NotFound(n) => SignatureErrorView::NotFound(n@),
            SignatureError::Invalid(r) => SignatureErrorView::Invalid(r@),
        }
    }
}

impl View for CallError {
    type V = CallErrorView;

    open spec fn view(&self) -> CallErrorView {
        match self {
            CallError::UnsupportedLanguage => CallErrorView::UnsupportedLanguage,
            CallError::Signature(s) => CallErrorView::Signature(s@),
            CallError::TooFewArguments => CallErrorView::TooFewArguments,
            CallError::ReturnBufferTooSmall => CallErrorView::ReturnBufferTooSmall,
            CallError::Ruby(r) => CallErrorView::Ruby(*r),
            CallError::ConnectFailed(r) => CallErrorView::ConnectFailed(r@),
            CallError::RemoteCallFailed => CallErrorView::RemoteCallFailed,
            CallError::Remote(r) => CallErrorView::Remote(r@),
        }
    }
}

/// The decimal digits of `n`.
pub open spec fn decimal(n: nat) -> Seq<char>
    decreases n,
{
    if n < 10 {
        seq![digit_char(n)]
    } else {
        decimal(n / 10).push(digit_char(n % 10))
    }
}

/// The character of a decimal digit.
pub open spec fn digit_char(d: nat) -> char {
    if d == 0 { '0' }
    else if d == 1 { '1' }
    else if d == 2 { '2' }
    else if d == 3 { '3' }
    else if d == 4 { '4' }
    else if d == 5 { '5' }
    else if d == 6 { '6' }
    else if d == 7 { '7' }
    else if d == 8 { '8' }
    else { '9' }
}

/// The text of a signature error.
pub open spec fn signature_error_text(e: SignatureErrorView) -> Seq<char> {
    match e {
        SignatureErrorView::Unavailable(reason) => reason,
        SignatureErrorView::NotFound(name) => "function \""@ + name + "\" not found"@,
        SignatureErrorView::Invalid(reason) => reason,
    }
}

/// The text of a call error.
pub open spec fn call_error_text(e: CallErrorView) -> Seq<char> {
    match e {
        CallErrorView::UnsupportedLanguage => "unsupported language"@,
        CallErrorView::Signature(s) => "callable_functions.json: "@ + signature_error_text(s),
        CallErrorView::TooFewArguments => "too few arguments"@,
        CallErrorView::ReturnBufferTooSmall => "return buffer too small"@,
        CallErrorView::Ruby(RubyCallError::NulInScript(p)) => "nul byte found in provided data at position: "@
            + decimal(p as nat),
        CallErrorView::Ruby(RubyCallError::NulInFunction(p)) => "nul byte found in provided data at position: "@
            + decimal(p as nat),
        CallErrorView::ConnectFailed(reason) => "Failed to connect: "@ + reason,
        CallErrorView::RemoteCallFailed => "remote call failed"@,
        CallErrorView::Remote(reason) => reason,
    }
}

/// The text of digits given least significant first.
pub open spec fn digits_text(ds: Seq<usize>) -> Seq<char> {
    ds.reverse().map_values(|d: usize| digit_char(d as nat))
}

fn digit_str(d: usize) -> (s: &'static str)
    requires
        d < 10,
    ensures
        s@ == seq![digit_char(d as nat)],
{
    if d == 0 {
        proof { reveal_strlit("0"); }
        "0"
    } else if d == 1 {
        proof { reveal_strlit("1"); }
        "1"
    } else if d == 2 {
        proof { reveal_strlit("2"); }
        "2"
    } else if d == 3 {
        proof { reveal_strlit("3"); }
        "3"
    } else if d == 4 {
        proof { reveal_strlit("4"); }
        "4"
    } else if d == 5 {
        proof { reveal_strlit("5"); }
        "5"
    } else if d == 6 {
        proof { reveal_strlit("6"); }
        "6"
    } else if d == 7 {
        proof { reveal_strlit("7"); }
        "7"
    } else if d == 8 {
        proof { reveal_strlit("8"); }
        "8"
    } else {
        proof { reveal_strlit("9"); }
        "9"
    }
}

/// The decimal text of `n`.
pub fn decimal_text(n: usize) -> (text: String)
    ensures
        text@ == decimal(n as nat),
{
    let mut ds: Vec<usize> = Vec::new();
    let mut rest: usize = n;
    while rest >= 10 || ds.len() == 0
        invariant
            rest <= n,
            ds@.len() == 0 ==> rest == n,
            forall|k: int| 0 <= k < ds@.len() ==> #[trigger] ds@[k] < 10,
            ds@.len() > 0 && rest > 0 ==> decimal(n as nat) == decimal(rest as nat) + digits_text(ds@),
            ds@.len() > 0 && rest == 0 ==> decimal(n as nat) == digits_text(ds@),
        decreases rest, (if ds@.len() == 0 { 1int } else { 0int }),
    {
        let d = rest % 10;
        let ghost before = ds@;
        let ghost c = digit_char(d as nat);
        ds.push(d);
        proof {
            assert(digits_text(ds@) =~= seq![c] + digits_text(before));
            if rest >= 10 {
                assert(decimal(rest as nat) == decimal((rest / 10) as nat).push(c));
                assert(decimal((rest / 10) as nat).push(c) + digits_text(before) =~= decimal(
                    (rest / 10) as nat,
                ) + digits_text(ds@));
            } else {
                assert(decimal(rest as nat) == seq![c]);
                if before.len() > 0 {
                    assert(decimal(n as nat) == seq![c] + digits_text(before));
                }
            }
        }
        rest = rest / 10;
    }
    assert(rest == 0 ==> decimal(n as nat) == digits_text(ds@));
    if rest > 0 {
        assert(decimal(rest as nat) == seq![digit_char(rest as nat)]);
        let ghost before = ds@;
        ds.push(rest);
        assert(digits_text(ds@) =~= seq![digit_char(rest as nat)] + digits_text(before));
    }
    let mut text = String::new();
    let mut i: usize = ds.len();
    while i > 0
        invariant
            i <= ds@.len(),
            forall|k: int| 0 <= k < ds@.len() ==> #[trigger] ds@[k] < 10,
            text@ == digits_text(ds@.subrange(i as int, ds@.len() as int)),
        decreases i,
    {
        i = i - 1;
        let ghost before = text@;
        text.append(digit_str(ds[i]));
        assert(digits_text(ds@.subrange(i as int, ds@.len() as int)) =~= before.push(
            digit_char(ds@[i as int] as nat),
        ));
    }
    assert(ds@.subrange(0, ds@.len() as int) =~= ds@);
    text
}

impl SignatureError {
    /// The text of this error.
    pub fn message(&self) -> (text: String)
        ensures
            text@ == signature_error_text(self@),
    {
        match self {
            SignatureError::Unavailable(reason) => reason.clone(),
            SignatureError::NotFound(name) => {
                let mut text = String::from_str("function \"");
                text.append(name.as_str());
                text.append("\" not found");
                text
            },
            SignatureError::Invalid(reason) => reason.clone(),
        }
    }
}

impl CallError {
    /// The text of this error.
    pub fn message(&self) -> (text: String)
        ensures
            text@ == call_error_text(self@),
    {
        match self {
            CallError::UnsupportedLanguage => String::from_str("unsupported language"),
            CallError::Signature(s) => {
                let mut text = String::from_str("callable_functions.json: ");
                let inner = s.message();
                text.append(inner.as_str());
                text
            },
            CallError::TooFewArguments => String::from_str("too few arguments"),
            CallError::ReturnBufferTooSmall => String::from_str("return buffer too small"),
            CallError::Ruby(RubyCallError::NulInScript(p)) | CallError::Ruby(
                RubyCallError::NulInFunction(p),
            ) => {
                let mut text = String::from_str("nul byte found in provided data at position: ");
                let number = decimal_text(*p);
                text.append(number.as_str());
                text
            },
            CallError::ConnectFailed(reason) => {
                let mut text = String::from_str("Failed to connect: ");
                text.append(reason.as_str());
                text
            },
            CallError::RemoteCallFailed => String::from_str("remote call failed"),
            CallError::Remote(reason) => reason.clone(),
        }
    }
}

} // verus!
