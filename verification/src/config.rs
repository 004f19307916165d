//! The table of callable functions: for each language, source file and
//! function name, the function's signature, or why the entry that stands
//! there is not one.
use vstd::prelude::*;
use crate::{Signature, Type};
use crate::error::{SignatureError, SignatureErrorView};

verus! {

/// What the table holds for a function.
#[derive(Debug, Clone)]
pub enum SignatureEntry {
    /// A well-formed signature.
    Signature(Signature),
    /// An entry that is not a signature, with the reason it was refused.
    Invalid(String),
}

impl View for SignatureEntry {
    type V = Result<(Seq<Type>, Type), Seq<char>>;

    open spec fn view(&self) -> Result<(Seq<Type>, Type), Seq<char>> {
        match self {
            SignatureEntry::Signature(sig) => Ok(sig@),
            SignatureEntry::Invalid(reason) => Err(reason@),
        }
    }
}

/// A function is named by its language, its source file and its name.
pub type FunctionKey = (Seq<char>, Seq<char>, Seq<char>);

struct Entry {
    language: String,
    file: String,
    function: String,
    signature: SignatureEntry,
}

impl View for Entry {
    type V = (FunctionKey, Result<(Seq<Type>, Type), Seq<char>>);

    closed spec fn view(&self) -> (FunctionKey, Result<(Seq<Type>, Type), Seq<char>>) {
        ((self.language@, self.file@, self.function@), self.signature@)
    }
}

/// The map that a list of entries stands for: a later entry for a key
/// replaces an earlier one.
pub open spec fn entries_map(
    entries: Seq<(FunctionKey, Result<(Seq<Type>, Type), Seq<char>>)>,
) -> Map<FunctionKey, Result<(Seq<Type>, Type), Seq<char>>>
    decreases entries.len(),
{
    if entries.len() == 0 {
        Map::empty()
    } else {
        entries_map(entries.drop_last()).insert(entries.last().0, entries.last().1)
    }
}

/// The table of callable functions.
pub struct CallableFunctions {
    entries: Vec<Entry>,
}

/// Why the table gives no signature for a function.
#[derive(Debug, Clone, PartialEq, Eq)]
pub enum LookupError {
    /// No entry stands for the function.
    NotFound,
    /// The entry that stands for the function is not a signature.
    Invalid(String),
}

impl View for CallableFunctions {
    type V = Map<FunctionKey, Result<(Seq<Type>, Type), Seq<char>>>;

    closed spec fn view(&self) -> Map<FunctionKey, Result<(Seq<Type>, Type), Seq<char>>> {
        entries_map(self.entries@.map_values(|e: Entry| e@))
    }
}

impl SignatureEntry {
    fn duplicate(&self) -> (copy: SignatureEntry)
        ensures
            copy@ == self@,
    {
        match self {
            SignatureEntry::Signature(sig) => SignatureEntry::Signature(sig.duplicate()),
            SignatureEntry::Invalid(reason) => SignatureEntry::Invalid(reason.clone()),
        }
    }
}

impl CallableFunctions {
    /// The empty table.
    pub fn new() -> (table: CallableFunctions)
        ensures
            table@ == Map::<FunctionKey, Result<(Seq<Type>, Type), Seq<char>>>::empty(),
    {
        let table = CallableFunctions { entries: Vec::new() };
        assert(table.entries@.map_values(|e: Entry| e@) =~= Seq::empty());
        table
    }

    /// Records `entry` for `function` of `file` in `language`, in place of
    /// what stood there.
    pub fn insert(&mut self, language: &str, file: &str, function: &str, entry: SignatureEntry)
        ensures
            final(self)@ == old(self)@.insert((language@, file@, function@), entry@),
    {
        let ghost before = self.entries@.map_values(|e: Entry| e@);
        self.entries.push(
            Entry {
                language: language.to_owned(),
                file: file.to_owned(),
                function: function.to_owned(),
                signature: entry,
            },
        );
        let ghost after = self.entries@.map_values(|e: Entry| e@);
        assert(after.drop_last() =~= before);
    }

    /// The signature that the table gives for `function` of `file` in
    /// `language`.
    pub fn lookup(&self, language: &str, file: &str, function: &str) -> (r: Result<
        Signature,
        LookupError,
    >)
        ensures
            match r {
                Ok(sig) => self@.get((language@, file@, function@)) == Some(
                    Ok::<(Seq<Type>, Type), Seq<char>>(sig@),
                ),
                Err(LookupError::NotFound) => !self@.contains_key((language@, file@, function@)),
                Err(LookupError::Invalid(reason)) => self@.get((language@, file@, function@))
                    == Some(Err::<(Seq<Type>, Type), Seq<char>>(reason@)),
            },
    {
        let language: String = language.to_owned();
        let file: String = file.to_owned();
        let function: String = function.to_owned();
        let ghost key: FunctionKey = (language@, file@, function@);
        let ghost all = self.entries@.map_values(|e: Entry| e@);
        let mut found: Option<usize> = None;
        let mut i: usize = 0;
        while i < self.entries.len()
            invariant
                i <= self.entries@.len(),
                all == self.entries@.map_values(|e: Entry| e@),
                key == (language@, file@, function@),
                match found {
                    Some(j) => j < i && entries_map(all.take(i as int)).get(key) == Some(
                        self.entries@[j as int].signature@,
                    ),
                    None => !entries_map(all.take(i as int)).contains_key(key),
                },
            decreases self.entries@.len() - i,
        {
            let e = &self.entries[i];
            if e.language == language && e.file == file && e.function == function {
                found = Some(i);
            }
            assert(all.take(i + 1).drop_last() =~= all.take(i as int));
            i = i + 1;
        }
        assert(all.take(i as int) =~= all);
        match found {
            Some(j) => match &self.entries[j].signature {
                SignatureEntry::Signature(sig) => Ok(sig.duplicate()),
                SignatureEntry::Invalid(reason) => Err(LookupError::Invalid(reason.clone())),
            },
            None => Err(LookupError::NotFound),
        }
    }
}

/// The table of callable functions, or why it could not be had, taken as
/// a map.
pub open spec fn table_view(
    functions: Result<CallableFunctions, String>,
) -> Result<Map<FunctionKey, Result<(Seq<Type>, Type), Seq<char>>>, Seq<char>> {
    match functions {
        Ok(table) => Ok(table@),
        Err(reason) => Err(reason@),
    }
}

/// The signature that a possibly missing table gives for `key`, or the
/// error for it.
pub open spec fn signature_view(
    table: Result<Map<FunctionKey, Result<(Seq<Type>, Type), Seq<char>>>, Seq<char>>,
    key: FunctionKey,
) -> Result<(Seq<Type>, Type), SignatureErrorView> {
    match table {
        Err(reason) => Err(SignatureErrorView::Unavailable(reason)),
        Ok(map) => match map.get(key) {
            None => Err(SignatureErrorView::NotFound(key.2)),
            Some(Ok(sig)) => Ok(sig),
            Some(Err(reason)) => Err(SignatureErrorView::Invalid(reason)),
        },
    }
}

/// The signature of `function` of `file` in `language`, from a table that
/// may not have been had.
pub fn signature_of(
    functions: &Result<CallableFunctions, String>,
    language: &str,
    file: &str,
    function: &str,
) -> (r: Result<Signature, SignatureError>)
    ensures
        match r {
            Ok(sig) => signature_view(table_view(*functions), (language@, file@, function@)) == Ok::<
                (Seq<Type>, Type),
                SignatureErrorView,
            >(sig@),
            Err(e) => signature_view(table_view(*functions), (language@, file@, function@)) == Err::<
                (Seq<Type>, Type),
                SignatureErrorView,
            >(e@),
        },
{
    match functions {
        Err(reason) => Err(SignatureError::Unavailable(reason.clone())),
        Ok(table) => match table.lookup(language, file, function) {
            Ok(sig) => Ok(sig),
            Err(LookupError::NotFound) => Err(SignatureError::NotFound(function.to_owned())),
            Err(LookupError::Invalid(reason)) => Err(SignatureError::Invalid(reason)),
        },
    }
}

/// What a lookup gives back of an insertion: the signature just recorded
/// for a function is the one found for it, and the entries of other
/// functions stay as they were.
pub proof fn lemma_lookup_after_insert(
    before: Map<FunctionKey, Result<(Seq<Type>, Type), Seq<char>>>,
    key: FunctionKey,
    entry: Result<(Seq<Type>, Type), Seq<char>>,
    other: FunctionKey,
)
    requires
        other != key,
    ensures
        signature_view(Ok(before.insert(key, entry)), key) == match entry {
            Ok(sig) => Ok::<(Seq<Type>, Type), SignatureErrorView>(sig),
            Err(reason) => Err(SignatureErrorView::Invalid(reason)),
        },
        signature_view(Ok(before.insert(key, entry)), other) == signature_view(Ok(before), other),
{
}

} // verus!
