//! The bridge from the engine's diagnostic slot to a structured error.
//!
//! The engine keeps the text of its last failure in a single slot that the
//! next foreign call may overwrite. The slot is therefore read at one place
//! only, right after a call has reported failure, and what was read becomes
//! the error's message.

use crate::text::{from_utf8_lossy, utf8_lossy};
use vstd::prelude::*;

verus! {

/// What failed.
#[derive(Clone, Copy, Debug, PartialEq, Eq, Structural)]
pub enum TskErrorKind {
    /// An image, filesystem, directory or file could not be opened.
    Open,
    /// A path did not resolve within an otherwise valid filesystem.
    NotFound,
    /// A traversal was aborted by the engine.
    Walk,
    /// The engine could not produce a value it is expected to always have.
    InternalConsistency,
}

/// A failure reported by the engine, with the engine's diagnostic as context.
#[derive(Debug)]
pub struct TskError {
    kind: TskErrorKind,
    message: String,
}

pub type TskResult<T> = Result<T, TskError>;

/// The message that stands for what was read from the diagnostic slot: the
/// slot's bytes decoded lossily, or `"unknown"` where the slot was empty.
pub open spec fn diagnostic_text(diagnostic: Option<Vec<u8>>) -> Seq<char> {
    match diagnostic {
        Some(bytes) => utf8_lossy(bytes@),
        None => "unknown"@,
    }
}

/// Whether `text` is the message for what was read from the diagnostic slot.
/// Where the slot held well-formed UTF-8, the message is the text it encodes.
pub open spec fn is_message(diagnostic: Option<Vec<u8>>, text: Seq<char>) -> bool {
    &&& text == diagnostic_text(diagnostic)
    &&& diagnostic matches Some(bytes) ==> (vstd::utf8::valid_utf8(bytes@) ==> text
        == vstd::utf8::decode_utf8(bytes@))
}

/// Whether `error` is of `kind` and carries some diagnostic that a call of
/// `error_get` can hand back.
pub open spec fn bridges<E: FnOnce() -> Option<Vec<u8>>>(
    error_get: E,
    kind: TskErrorKind,
    error: TskError,
) -> bool {
    &&& error.spec_kind() == kind
    &&& exists|diagnostic: Option<Vec<u8>>| #[trigger]
        call_ensures(error_get, (), diagnostic) && is_message(diagnostic, error.text())
}

impl TskError {
    /// The kind of the failure.
    pub closed spec fn spec_kind(&self) -> TskErrorKind {
        self.kind
    }

    /// The characters of the message.
    pub closed spec fn text(&self) -> Seq<char> {
        self.message@
    }

    /// Makes an error of `kind` from what the diagnostic slot held.
    pub fn new(kind: TskErrorKind, diagnostic: Option<Vec<u8>>) -> (error: TskError)
        ensures
            error.spec_kind() == kind,
            is_message(diagnostic, error.text()),
    {
        let message = match &diagnostic {
            Some(bytes) => from_utf8_lossy(bytes.as_slice()),
            None => "unknown".to_owned(),
        };
        TskError { kind, message }
    }

    /// The kind of the failure.
    #[verifier::when_used_as_spec(spec_kind)]
    pub fn kind(&self) -> (kind: TskErrorKind)
        ensures
            kind == self.spec_kind(),
    {
        self.kind
    }

    /// The engine's diagnostic.
    pub fn message(&self) -> (message: &str)
        ensures
            message@ == self.text(),
    {
        self.message.as_str()
    }

    /// The text that a rendering of this error shows: the message.
    pub fn to_string(&self) -> (rendered: String)
        ensures
            rendered@ == self.text(),
    {
        self.message.clone()
    }
}

/// Reads the engine's diagnostic slot and makes an error of `kind` from it.
///
/// To be called right after a foreign call has reported failure, before any
/// other foreign call.
pub fn try_get_tsk_error<E>(kind: TskErrorKind, error_get: E) -> (error: TskError) where
    E: FnOnce() -> Option<Vec<u8>>,

    requires
        call_requires(error_get, ()),
    ensures
        bridges(error_get, kind, error),
{
    let diagnostic = error_get();
    TskError::new(kind, diagnostic)
}

} // verus!
