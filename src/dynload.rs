use vstd::prelude::*;
use vstd::string::StringExecFns;
use vstd::utf8::{decode_utf8, valid_utf8};

verus! {

/// Text reported when the loader could not open a library and said nothing usable.
pub const LOAD_FALLBACK: &'static str = "cannot load library";

/// Text reported when a symbol was not found and the loader said nothing usable.
pub const SYMBOL_FALLBACK: &'static str = "cannot load symbol";

/// Text of the fatal condition of using the process-wide library before loading it.
pub const NOT_LOADED: &'static str =
    "libgccjit needs to be loaded by calling load() before attempting to do any operation";

/// What can go wrong when loading a library or resolving a symbol.
#[derive(Debug, PartialEq, Eq)]
pub enum Error {
    /// The path did not lead to a usable library image.
    LoadFailure(String),
    /// The library exports no symbol of the requested name.
    SymbolNotFound(String),
    /// A library was needed before one had been loaded.
    UsedBeforeLoaded,
}

impl Error {
    /// The text of this error, as shown to a user.
    pub fn message(&self) -> (r: String)
        ensures
            r@ == error_text(*self),
    {
        match self {
            Error::LoadFailure(m) => m.clone(),
            Error::SymbolNotFound(m) => m.clone(),
            Error::UsedBeforeLoaded => String::from_str(NOT_LOADED),
        }
    }
}

/// The text of an error.
pub open spec fn error_text(e: Error) -> Seq<char> {
    match e {
        Error::LoadFailure(m) => m@,
        Error::SymbolNotFound(m) => m@,
        Error::UsedBeforeLoaded => NOT_LOADED@,
    }
}

/// What `std::str::from_utf8` reports, as text, on bytes that are not UTF-8.
pub uninterp spec fn utf8_error_text(b: Seq<u8>) -> Seq<char>;

/// Relies on `std::str::from_utf8`: it accepts exactly the well-formed UTF-8
/// byte strings and then yields their characters; otherwise its error, shown
/// as text, depends on the bytes alone.
#[verifier::external_body]
fn utf8_text(b: &[u8]) -> (r: Result<String, String>)
    ensures
        r is Ok <==> valid_utf8(b@),
        r matches Ok(s) ==> s@ == decode_utf8(b@),
        r matches Err(e) ==> e@ == utf8_error_text(b@),
{
    match std::str::from_utf8(b) {
        Ok(s) => Ok(s.to_string()),
        Err(e) => Err(e.to_string()),
    }
}

/// The text that a platform diagnostic reads as: its characters where it is
/// UTF-8, else the description of why it is not.
pub open spec fn diagnostic_text(raw: Seq<u8>) -> Seq<char> {
    if valid_utf8(raw) {
        decode_utf8(raw)
    } else {
        utf8_error_text(raw)
    }
}

/// The message reported for a failure: the platform's diagnostic where there
/// is one with some text, else the fixed `fallback`.
pub open spec fn failure_message(raw: Option<Seq<u8>>, fallback: Seq<char>) -> Seq<char> {
    match raw {
        Some(b) => if diagnostic_text(b).len() > 0 {
            diagnostic_text(b)
        } else {
            fallback
        },
        None => fallback,
    }
}

/// A failure is never reported without text, whatever the loader said,
/// as long as the fixed text has some.
pub proof fn lemma_failure_message_nonempty(raw: Option<Seq<u8>>, fallback: Seq<char>)
    requires
        fallback.len() > 0,
    ensures
        failure_message(raw, fallback).len() > 0,
{
}

/// The bytes of an optional diagnostic, as a sequence.
pub open spec fn bytes_of(raw: Option<&[u8]>) -> Option<Seq<u8>> {
    match raw {
        Some(b) => Some(b@),
        None => None,
    }
}

/// Turns the loader's last diagnostic (the bytes it reported, if any) into the
/// message of a failure; `fallback` stands in where it gave no text.
pub fn describe_failure(raw: Option<&[u8]>, fallback: &str) -> (r: String)
    ensures
        r@ == failure_message(bytes_of(raw), fallback@),
{
    match raw {
        Some(b) => match utf8_text(b) {
            Ok(s) => if !s.as_str().is_empty() { s } else { String::from_str(fallback) },
            Err(e) => if !e.as_str().is_empty() { e } else { String::from_str(fallback) },
        },
        None => String::from_str(fallback),
    }
}

/// An open shared library, identified by the non-zero handle the loader gave.
///
/// A value exists only once the loader succeeded; `close` consumes it, so the
/// handle is handed back for release exactly once.
pub struct Library {
    handle: usize,
}

impl View for Library {
    type V = usize;

    closed spec fn view(&self) -> usize {
        self.handle
    }
}

impl Library {
    /// Takes the result of the loader's open call on some path: `handle` is
    /// what it returned (zero when it failed) and `diagnostic` what it then
    /// reported as its last error.
    pub fn open(handle: usize, diagnostic: Option<&[u8]>) -> (r: Result<Library, Error>)
        ensures
            handle != 0 ==> (r matches Ok(lib) && lib@ == handle),
            handle == 0 ==> (r matches Err(Error::LoadFailure(m))
                && m@ == failure_message(bytes_of(diagnostic), LOAD_FALLBACK@)
                && m@.len() > 0),
    {
        proof {
            reveal_strlit("cannot load library");
            lemma_failure_message_nonempty(bytes_of(diagnostic), LOAD_FALLBACK@);
        }
        if handle == 0 {
            Err(Error::LoadFailure(describe_failure(diagnostic, LOAD_FALLBACK)))
        } else {
            Ok(Library { handle })
        }
    }

    /// Takes the result of the loader's lookup of a symbol in this library:
    /// `address` is what it returned (zero when the name is not exported) and
    /// `diagnostic` what it then reported as its last error.
    pub fn get(&self, address: usize, diagnostic: Option<&[u8]>) -> (r: Result<Symbol<'_>, Error>)
        ensures
            address != 0 ==> (r matches Ok(sym) && sym@ == address && sym.library() == self),
            address == 0 ==> (r matches Err(Error::SymbolNotFound(m))
                && m@ == failure_message(bytes_of(diagnostic), SYMBOL_FALLBACK@)
                && m@.len() > 0),
    {
        proof {
            reveal_strlit("cannot load symbol");
            lemma_failure_message_nonempty(bytes_of(diagnostic), SYMBOL_FALLBACK@);
        }
        if address == 0 {
            Err(Error::SymbolNotFound(describe_failure(diagnostic, SYMBOL_FALLBACK)))
        } else {
            Ok(Symbol { address, library: self })
        }
    }

    #[verifier::type_invariant]
    spec fn inv(&self) -> bool {
        self.handle != 0
    }

    /// The loader handle of this library, for the lookup and release calls.
    pub fn raw(&self) -> (r: usize)
        ensures
            r == self@,
            r != 0,
    {
        proof {
            use_type_invariant(self);
        }
        self.handle
    }

    /// Ends the life of this library and hands back its handle, which the
    /// caller releases with the loader.
    pub fn close(self) -> (r: usize)
        ensures
            r == self@,
            r != 0,
    {
        proof {
            use_type_invariant(&self);
        }
        self.handle
    }
}

/// The untyped address of a symbol, borrowed from the library it came from:
/// it cannot outlive that library. Giving it a type is the caller's affair.
pub struct Symbol<'a> {
    address: usize,
    library: &'a Library,
}

impl<'a> View for Symbol<'a> {
    type V = usize;

    closed spec fn view(&self) -> usize {
        self.address
    }
}

impl<'a> Symbol<'a> {
    #[verifier::type_invariant]
    spec fn inv(&self) -> bool {
        self.address != 0
    }

    /// The library this symbol was resolved in.
    pub closed spec fn library(&self) -> &'a Library {
        self.library
    }

    /// The address of the symbol, never zero.
    pub fn address(&self) -> (r: usize)
        ensures
            r == self@,
            r != 0,
    {
        proof {
            use_type_invariant(self);
        }
        self.address
    }
}

} // verus!
