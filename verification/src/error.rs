//! The failures of a transcoding call.

use vstd::prelude::*;

verus! {

/// Why a transcoding call failed.
#[derive(Clone, Copy, Debug, PartialEq, Eq, Structural)]
pub enum ErrorKind {
    /// The binary payload is truncated or structurally invalid.
    MalformedInput,
    /// The kind of a node of the binary payload could not be determined.
    UnresolvedAmbiguity,
    /// The text is not a document of the expected shape.
    TextDecodeError,
    /// The tree holds a value that the binary encoding cannot represent.
    EncodeRangeError,
    /// The tree cannot be written as null-terminated text.
    TextEncodeError,
}

/// How the binary reader gave up: the variant of `uesave::Error` that it
/// returned, without what it carries, or that it did not return at all.
#[derive(Clone, Copy, Debug, PartialEq, Eq, Structural)]
pub enum ReadCause {
    /// The payload does not start as a save does.
    BadMagic,
    /// A property names a type that the reader does not know.
    UnknownPropertyType,
    /// A property carries metadata of a type that the reader does not know.
    UnknownPropertyMeta,
    /// An array or set holds elements of a type that the reader cannot read.
    UnknownVecType,
    /// The payload ended before the reader was done.
    Io,
    /// The payload holds a value that the reader has no reading for.
    Other,
    /// The reader panicked on what it found.
    Panicked,
}

/// A failed transcoding call: its kind, and a message for a person.
#[derive(Debug)]
pub struct TranscodeError {
    pub kind: ErrorKind,
    pub message: String,
}

impl View for TranscodeError {
    type V = (ErrorKind, Seq<char>);

    open spec fn view(&self) -> (ErrorKind, Seq<char>) {
        (self.kind, self.message@)
    }
}

/// A failure of the binary reader: how it gave up, and its own words for it.
#[derive(Debug)]
pub struct ReadFailure {
    pub cause: ReadCause,
    pub message: String,
}

/// The kind under which a failure of the binary reader is reported: a name
/// that the reader does not know leaves the kind of a node undetermined, and
/// everything else, a panic of the reader included, is a payload that is cut
/// short or not a save at all.
pub open spec fn read_error_kind(cause: ReadCause) -> ErrorKind {
    match cause {
        ReadCause::UnknownPropertyType => ErrorKind::UnresolvedAmbiguity,
        ReadCause::UnknownPropertyMeta => ErrorKind::UnresolvedAmbiguity,
        ReadCause::UnknownVecType => ErrorKind::UnresolvedAmbiguity,
        ReadCause::BadMagic => ErrorKind::MalformedInput,
        ReadCause::Io => ErrorKind::MalformedInput,
        ReadCause::Other => ErrorKind::MalformedInput,
        ReadCause::Panicked => ErrorKind::MalformedInput,
    }
}

/// Computes [`read_error_kind`].
pub fn classify_read(cause: ReadCause) -> (kind: ErrorKind)
    ensures
        kind == read_error_kind(cause),
{
    match cause {
        ReadCause::UnknownPropertyType
        | ReadCause::UnknownPropertyMeta
        | ReadCause::UnknownVecType => ErrorKind::UnresolvedAmbiguity,
        ReadCause::BadMagic | ReadCause::Io | ReadCause::Other | ReadCause::Panicked => {
            ErrorKind::MalformedInput
        },
    }
}

/// A plain outcome: the value, or the kind and message of the failure.
pub type Outcome<T> = Result<T, (ErrorKind, Seq<char>)>;

/// The outcome that a result stands for, both sides by view.
pub open spec fn outcome<T: View>(r: Result<T, TranscodeError>) -> Outcome<T::V> {
    match r {
        Ok(value) => Ok(value@),
        Err(e) => Err(e@),
    }
}

/// A codec's outcome with its failure reported under `kind`.
pub open spec fn reported<T>(r: Result<T, Seq<char>>, kind: ErrorKind) -> Outcome<T> {
    match r {
        Ok(value) => Ok(value),
        Err(message) => Err((kind, message)),
    }
}

impl TranscodeError {
    /// A failure of the given kind.
    pub fn new(kind: ErrorKind, message: String) -> (e: TranscodeError)
        ensures
            e@ == (kind, message@),
    {
        TranscodeError { kind, message }
    }

    /// The failure under which a failure of the binary reader is reported:
    /// its kind is [`read_error_kind`] of the cause, its message the reader's.
    pub fn from_read(failure: ReadFailure) -> (e: TranscodeError)
        ensures
            e@ == (read_error_kind(failure.cause), failure.message@),
    {
        TranscodeError { kind: classify_read(failure.cause), message: failure.message }
    }
}

} // verus!
