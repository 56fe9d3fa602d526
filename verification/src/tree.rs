//! The property tree and its canonical text.

use crate::codec::{from_json, text_tree, to_json, tree_text};
use crate::error::{outcome, reported, ErrorKind, Outcome, TranscodeError};
use uesave::Save;
use vstd::prelude::*;

verus! {

/// The outcome that a tree result stands for.
pub open spec fn tree_outcome(r: Result<Save, TranscodeError>) -> Outcome<Save> {
    match r {
        Ok(tree) => Ok(tree),
        Err(e) => Err(e@),
    }
}

/// Reports a codec's failure under `kind` and leaves its success alone.
pub fn with_kind<T>(r: Result<T, String>, kind: ErrorKind) -> (out: Result<T, TranscodeError>)
    ensures
        match r {
            Ok(value) => out == Ok::<T, TranscodeError>(value),
            Err(message) => out is Err && out->Err_0@ == (kind, message@),
        },
{
    match r {
        Ok(value) => Ok(value),
        Err(message) => Err(TranscodeError::new(kind, message)),
    }
}

/// Writes a tree as canonical text.
pub fn tree_to_text(tree: &Save) -> (r: Result<String, TranscodeError>)
    ensures
        outcome(r) == reported(tree_text(*tree), ErrorKind::TextEncodeError),
{
    with_kind(to_json(tree), ErrorKind::TextEncodeError)
}

/// Reads canonical text into a tree. Text of any other shape is refused.
pub fn text_to_tree(text: &str) -> (r: Result<Save, TranscodeError>)
    ensures
        tree_outcome(r) == reported(text_tree(text@), ErrorKind::TextDecodeError),
{
    with_kind(from_json(text), ErrorKind::TextDecodeError)
}

} // verus!
