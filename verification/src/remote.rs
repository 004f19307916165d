//! Calls made through a call server: the request, the framing of messages
//! on the connection, and the reply.
use vstd::prelude::*;
use vstd::bytes::{spec_u64_from_le_bytes, spec_u64_to_le_bytes, u64_from_le_bytes, u64_to_le_bytes};
use crate::{Signature, Type, Value};
use crate::config::{CallableFunctions, signature_of, signature_view, table_view, FunctionKey};
use crate::error::{CallError, CallErrorView};
use crate::language::{from_name, language_named, language_size, Language};

verus! {

/// A call as it is sent to the call server.
#[derive(Debug, Clone)]
pub struct RemoteFunction {
    pub caller_lang_name: String,
    pub callee_lang_name: String,
    pub file: String,
    pub func_name: String,
    pub args: Vec<Value>,
}

/// What a remote call has settled before the request is sent: the
/// caller's language and the callee's signature.
#[derive(Debug, Clone)]
pub struct RemotePlan {
    pub caller: Language,
    pub signature: Signature,
}

impl View for RemotePlan {
    type V = (Language, (Seq<Type>, Type));

    open spec fn view(&self) -> (Language, (Seq<Type>, Type)) {
        (self.caller, self.signature@)
    }
}

/// The outcome of the checks of a remote call, in the order they are made:
/// the caller's language, the callee's signature, the number of arguments,
/// and, where the caller gave a buffer for the result, its size.
pub open spec fn remote_outcome(
    caller_lang_name: Seq<char>,
    callee_lang_name: Seq<char>,
    file: Seq<char>,
    func_name: Seq<char>,
    arg_count: nat,
    return_capacity: Option<usize>,
    table: Result<Map<FunctionKey, Result<(Seq<Type>, Type), Seq<char>>>, Seq<char>>,
) -> Result<(Language, (Seq<Type>, Type)), CallErrorView> {
    match language_named(caller_lang_name) {
        Err(_) => Err(CallErrorView::UnsupportedLanguage),
        Ok(caller) => match signature_view(table, (callee_lang_name, file, func_name)) {
            Err(e) => Err(CallErrorView::Signature(e)),
            Ok(sig) => if arg_count < sig.0.len() {
                Err(CallErrorView::TooFewArguments)
            } else if return_capacity matches Some(cap) && cap < language_size(caller, sig.1) {
                Err(CallErrorView::ReturnBufferTooSmall)
            } else {
                Ok((caller, sig))
            },
        },
    }
}

/// Makes the checks of a call through a call server from
/// `caller_lang_name` of `func_name` in `file` of `callee_lang_name`, with
/// `arg_count` arguments and, where given, a buffer of `return_capacity`
/// bytes for the result.
pub fn prepare(
    caller_lang_name: &str,
    callee_lang_name: &str,
    file: &str,
    func_name: &str,
    arg_count: usize,
    return_capacity: Option<usize>,
    functions: &Result<CallableFunctions, String>,
) -> (r: Result<RemotePlan, CallError>)
    ensures
        match r {
            Ok(plan) => remote_outcome(
                caller_lang_name@,
                callee_lang_name@,
                file@,
                func_name@,
                arg_count as nat,
                return_capacity,
                table_view(*functions),
            ) == Ok::<(Language, (Seq<Type>, Type)), CallErrorView>(plan@),
            Err(e) => remote_outcome(
                caller_lang_name@,
                callee_lang_name@,
                file@,
                func_name@,
                arg_count as nat,
                return_capacity,
                table_view(*functions),
            ) == Err::<(Language, (Seq<Type>, Type)), CallErrorView>(e@),
        },
{
    let caller = match from_name(caller_lang_name) {
        Ok(lang) => lang,
        Err(_) => {
            return Err(CallError::UnsupportedLanguage);
        },
    };
    let signature = match signature_of(functions, callee_lang_name, file, func_name) {
        Ok(sig) => sig,
        Err(e) => {
            return Err(CallError::Signature(e));
        },
    };
    if arg_count < signature.argument_type.len() {
        return Err(CallError::TooFewArguments);
    }
    match return_capacity {
        Some(cap) => {
            if cap < caller.size_of(signature.return_type) {
                return Err(CallError::ReturnBufferTooSmall);
            }
        },
        None => {},
    }
    Ok(RemotePlan { caller, signature })
}

/// The result of a remote call from the server's answer: its value, or
/// the error it reports.
pub fn reply(answer: Result<Value, String>) -> (r: Result<Value, CallError>)
    ensures
        match answer {
            Ok(v) => r == Ok::<Value, CallError>(v),
            Err(reason) => r matches Err(CallError::Remote(m)) && m@ == reason@,
        },
{
    match answer {
        Ok(v) => Ok(v),
        Err(reason) => Err(CallError::Remote(reason)),
    }
}

/// The eight bytes that precede a message: its length, most significant
/// byte first.
pub open spec fn length_header(len: u64) -> Seq<u8> {
    spec_u64_to_le_bytes(len).reverse()
}

/// The length that an eight-byte header announces.
pub open spec fn header_length(header: Seq<u8>) -> u64 {
    spec_u64_from_le_bytes(header.reverse())
}

fn reversed(bytes: &Vec<u8>) -> (r: Vec<u8>)
    ensures
        r@ == bytes@.reverse(),
{
    let mut r: Vec<u8> = Vec::new();
    let mut i: usize = bytes.len();
    while i > 0
        invariant
            i <= bytes@.len(),
            r@ == bytes@.subrange(i as int, bytes@.len() as int).reverse(),
        decreases i,
    {
        i = i - 1;
        r.push(bytes[i]);
        assert(r@ =~= bytes@.subrange(i as int, bytes@.len() as int).reverse());
    }
    assert(bytes@.subrange(0, bytes@.len() as int) =~= bytes@);
    r
}

/// The header that announces a message of `len` bytes.
pub fn encode_length(len: u64) -> (header: Vec<u8>)
    ensures
        header@ == length_header(len),
        header@.len() == 8,
{
    let le = u64_to_le_bytes(len);
    reversed(&le)
}

/// The length that `header` announces.
pub fn decode_length(header: &[u8]) -> (len: u64)
    requires
        header@.len() == 8,
    ensures
        len == header_length(header@),
{
    let mut copy: Vec<u8> = Vec::new();
    let mut i: usize = 0;
    while i < header.len()
        invariant
            i <= header@.len(),
            copy@ == header@.take(i as int),
        decreases header@.len() - i,
    {
        copy.push(header[i]);
        i = i + 1;
        assert(copy@ =~= header@.take(i as int));
    }
    assert(copy@ =~= header@);
    let le = reversed(&copy);
    u64_from_le_bytes(le.as_slice())
}

/// Reading a header gives back the length written into it, and every
/// eight bytes are the header of the length they announce.
pub proof fn lemma_length_header_roundtrip(len: u64, header: Seq<u8>)
    ensures
        length_header(len).len() == 8,
        header_length(length_header(len)) == len,
        header.len() == 8 ==> length_header(header_length(header)) == header,
{
    vstd::bytes::lemma_auto_spec_u64_to_from_le_bytes();
    assert(spec_u64_to_le_bytes(len).reverse().reverse() =~= spec_u64_to_le_bytes(len));
    if header.len() == 8 {
        let le = header.reverse();
        assert(spec_u64_to_le_bytes(spec_u64_from_le_bytes(le)) == le);
        assert(le.reverse() =~= header);
    }
}

/// The receiving end of one message: the length its header announced and
/// the bytes received so far.
pub struct FrameReader {
    expected: u64,
    received: Vec<u8>,
}

impl View for FrameReader {
    type V = (u64, Seq<u8>);

    closed spec fn view(&self) -> (u64, Seq<u8>) {
        (self.expected, self.received@)
    }
}

/// What a reader that expects `expected` bytes and holds `received` holds
/// once it has been offered `chunks` in turn: it takes each chunk while it
/// holds fewer bytes than it expects, and stops then.
pub open spec fn read_frame(expected: nat, received: Seq<u8>, chunks: Seq<Seq<u8>>) -> Seq<u8>
    decreases chunks.len(),
{
    if chunks.len() == 0 || received.len() >= expected {
        received
    } else {
        read_frame(expected, received + chunks[0], chunks.drop_first())
    }
}

impl FrameReader {
    /// A reader for the message that `header` announces.
    pub fn new(header: &[u8]) -> (reader: FrameReader)
        requires
            header@.len() == 8,
        ensures
            reader@ == (header_length(header@), Seq::<u8>::empty()),
    {
        FrameReader { expected: decode_length(header), received: Vec::new() }
    }

    /// The length of the message.
    pub fn expected(&self) -> (len: u64)
        ensures
            len == self@.0,
    {
        self.expected
    }

    /// Whether fewer bytes have come than the message holds.
    pub fn wants_more(&self) -> (more: bool)
        ensures
            more == (self@.1.len() < self@.0),
    {
        (self.received.len() as u64) < self.expected
    }

    /// Takes the bytes that have come next.
    pub fn accept(&mut self, chunk: &[u8])
        ensures
            final(self)@ == (old(self)@.0, old(self)@.1 + chunk@),
    {
        let mut i: usize = 0;
        let ghost start = self.received@;
        while i < chunk.len()
            invariant
                i <= chunk@.len(),
                self.received@ == start + chunk@.take(i as int),
                self.expected == old(self).expected,
                start == old(self).received@,
            decreases chunk@.len() - i,
        {
            self.received.push(chunk[i]);
            i = i + 1;
            assert(self.received@ =~= start + chunk@.take(i as int));
        }
        assert(chunk@.take(i as int) =~= chunk@);
    }

    /// The bytes received.
    pub fn finish(self) -> (bytes: Vec<u8>)
        ensures
            bytes@ == self@.1,
    {
        self.received
    }
}

/// A message read in chunks comes out whole: when the chunks, none of them
/// empty, make up the message in order, a reader for the message's length
/// takes every chunk and holds the message.
pub proof fn lemma_read_frame_whole(message: Seq<u8>, chunks: Seq<Seq<u8>>)
    requires
        chunks.flatten() == message,
        forall|i: int| 0 <= i < chunks.len() ==> #[trigger] chunks[i].len() > 0,
    ensures
        read_frame(message.len(), Seq::empty(), chunks) == message,
{
    lemma_read_frame_rest(message, Seq::empty(), chunks);
}

proof fn lemma_read_frame_rest(message: Seq<u8>, received: Seq<u8>, chunks: Seq<Seq<u8>>)
    requires
        received + chunks.flatten() == message,
        forall|i: int| 0 <= i < chunks.len() ==> #[trigger] chunks[i].len() > 0,
    ensures
        read_frame(message.len(), received, chunks) == message,
    decreases chunks.len(),
{
    if chunks.len() == 0 {
        assert(received + chunks.flatten() =~= received);
    } else {
        assert(chunks.flatten() == chunks[0] + chunks.drop_first().flatten());
        assert(chunks[0].len() > 0);
        assert(received + chunks[0] + chunks.drop_first().flatten() =~= message);
        assert forall|i: int| 0 <= i < chunks.drop_first().len() implies #[trigger] chunks.drop_first()[i].len() > 0 by {
            assert(chunks.drop_first()[i] == chunks[i + 1]);
        }
        lemma_read_frame_rest(message, received + chunks[0], chunks.drop_first());
    }
}

/// A call through a server is accepted only for a known caller's language
/// and a signature found in the table, with at least as many arguments as
/// the signature takes, whether or not a buffer for the result is given,
/// and with a given buffer large enough for the result in the caller's
/// language; a known caller and a found signature with too few arguments
/// are refused for that.
pub proof fn lemma_remote_acceptance(
    caller_lang_name: Seq<char>,
    callee_lang_name: Seq<char>,
    file: Seq<char>,
    func_name: Seq<char>,
    arg_count: nat,
    return_capacity: Option<usize>,
    table: Result<Map<FunctionKey, Result<(Seq<Type>, Type), Seq<char>>>, Seq<char>>,
)
    ensures
        remote_outcome(
            caller_lang_name,
            callee_lang_name,
            file,
            func_name,
            arg_count,
            return_capacity,
            table,
        ) is Ok ==> ({
            let p = remote_outcome(
                caller_lang_name,
                callee_lang_name,
                file,
                func_name,
                arg_count,
                return_capacity,
                table,
            )->Ok_0;
            &&& language_named(caller_lang_name) == Ok::<Language, crate::language::UnsupportedLanguage>(p.0)
            &&& signature_view(table, (callee_lang_name, file, func_name)) == Ok::<
                (Seq<Type>, Type),
                crate::error::SignatureErrorView,
            >(p.1)
            &&& arg_count >= p.1.0.len()
            &&& (return_capacity is Some ==> return_capacity->Some_0 >= language_size(p.0, p.1.1))
        }),
        (language_named(caller_lang_name) is Ok && signature_view(
            table,
            (callee_lang_name, file, func_name),
        ) is Ok && arg_count < signature_view(table, (callee_lang_name, file, func_name))->Ok_0.0.len())
            ==> (remote_outcome(
            caller_lang_name,
            callee_lang_name,
            file,
            func_name,
            arg_count,
            return_capacity,
            table,
        ) matches Err(CallErrorView::TooFewArguments)),
{
}

} // verus!
