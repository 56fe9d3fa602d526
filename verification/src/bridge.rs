//! The boundary gateway. A decode builds the table of hints, has the binary
//! reader run on the payload with it, and frames the text of what the reader
//! found. An encode reads the caller's text into a tree, has the binary
//! writer run on it, and hands out what the writer produced. The reader and
//! the writer are run by the caller of this library, which passes their
//! results in; everything before and after is decided here.

use crate::buffer::ByteBuffer;
use crate::codec::{text_tree, tree_text};
use crate::error::{
    outcome, read_error_kind, reported, ErrorKind, Outcome, ReadCause, ReadFailure, TranscodeError,
};
use crate::text::{
    c_text, framed, from_utf8_lossy, has_nul, lemma_text_survives_boundary, lossy_text,
    text_before_nul, TextBuffer,
};
use crate::tree::{text_to_tree, tree_outcome, tree_to_text, with_kind};
use uesave::Save;
use vstd::prelude::*;
use vstd::utf8::*;

verus! {

/// A reader's result with its failure taken by view.
pub open spec fn read_view(read: Result<Save, ReadFailure>) -> Result<Save, (ReadCause, Seq<char>)> {
    match read {
        Ok(tree) => Ok(tree),
        Err(failure) => Err((failure.cause, failure.message@)),
    }
}

/// A writer's result taken by view.
pub open spec fn written_view(written: Result<Vec<u8>, String>) -> Result<Seq<u8>, Seq<char>> {
    match written {
        Ok(bytes) => Ok(bytes@),
        Err(message) => Err(message@),
    }
}

/// What a decode answers to the reader's result: the reader's failure under
/// the kind that [`read_error_kind`] gives it, or the framed canonical text
/// of the tree, or the failure to write or frame that text.
pub open spec fn decode_outcome(read: Result<Save, (ReadCause, Seq<char>)>) -> Outcome<Seq<u8>> {
    match read {
        Err((cause, message)) => Err((read_error_kind(cause), message)),
        Ok(tree) => match reported(tree_text(tree), ErrorKind::TextEncodeError) {
            Err(e) => Err(e),
            Ok(text) => framed(text),
        },
    }
}

/// What an encode makes of a caller's text buffer: the tree that the text
/// before the buffer's first NUL describes, or a text decode error.
pub open spec fn parse_outcome(json: Seq<u8>) -> Outcome<Save> {
    reported(text_tree(lossy_text(c_text(json))), ErrorKind::TextDecodeError)
}

/// What an encode answers to the writer's result: the payload, or the
/// writer's failure as an encode range error.
pub open spec fn encode_outcome(written: Result<Seq<u8>, Seq<char>>) -> Outcome<Seq<u8>> {
    reported(written, ErrorKind::EncodeRangeError)
}

/// Finishes a decode: takes what the binary reader returned for the payload
/// under the table of [`crate::hints::TypeHintMap::from_pairs`], and answers
/// with the null-terminated canonical text of the tree.
pub fn deserialize(read: Result<Save, ReadFailure>) -> (r: Result<TextBuffer, TranscodeError>)
    ensures
        outcome(r) == decode_outcome(read_view(read)),
{
    match read {
        Err(failure) => Err(TranscodeError::from_read(failure)),
        Ok(tree) => match tree_to_text(&tree) {
            Err(e) => Err(e),
            Ok(text) => TextBuffer::new(text.as_str()),
        },
    }
}

/// Starts an encode: reads a caller's null-terminated canonical text into
/// the tree that the binary writer is to be run on. The text is read up to
/// the first NUL, with every invalid byte sequence replaced.
pub fn parse(json: &[u8]) -> (r: Result<Save, TranscodeError>)
    ensures
        tree_outcome(r) == parse_outcome(json@),
{
    let text = from_utf8_lossy(text_before_nul(json));
    text_to_tree(text.as_str())
}

/// Finishes an encode: takes what the binary writer returned for the tree of
/// [`parse`], and answers with the payload in a buffer that reports the
/// payload's length and a capacity that is not below it.
pub fn serialize(written: Result<Vec<u8>, String>) -> (r: Result<ByteBuffer, TranscodeError>)
    ensures
        match encode_outcome(written_view(written)) {
            Ok(bytes) => r is Ok && r->Ok_0.payload() == bytes && r->Ok_0.length() == bytes.len()
                && r->Ok_0.reserved() >= bytes.len(),
            Err(e) => r is Err && r->Err_0@ == e,
        },
{
    match with_kind(written, ErrorKind::EncodeRangeError) {
        Err(e) => Err(e),
        Ok(bytes) => Ok(ByteBuffer::new(bytes)),
    }
}

/// Text that the text codec refuses is never handed to the writer: the
/// encode fails as a text decode error with the codec's message, whatever
/// the text holds besides.
pub proof fn lemma_refused_text_is_not_encoded(json: Seq<u8>)
    requires
        text_tree(lossy_text(c_text(json))) is Err,
    ensures
        parse_outcome(json) == Err::<Save, (ErrorKind, Seq<char>)>(
            (ErrorKind::TextDecodeError, text_tree(lossy_text(c_text(json)))->Err_0),
        ),
{
}

/// A failure of the reader is never answered with text. It is answered as
/// an unresolved ambiguity exactly where the reader met a type that it does
/// not know, and as malformed input everywhere else.
pub proof fn lemma_failed_read_gives_no_text(cause: ReadCause, message: Seq<char>)
    ensures
        decode_outcome(Err((cause, message))) == Err::<Seq<u8>, (ErrorKind, Seq<char>)>(
            (read_error_kind(cause), message),
        ),
        read_error_kind(cause) == ErrorKind::UnresolvedAmbiguity <==> cause
            == ReadCause::UnknownPropertyType || cause == ReadCause::UnknownPropertyMeta || cause
            == ReadCause::UnknownVecType,
        read_error_kind(cause) != ErrorKind::UnresolvedAmbiguity ==> read_error_kind(cause)
            == ErrorKind::MalformedInput,
{
}

/// The text that a decode frames for a tree is, handed back as it is, the
/// text that the encode parses: what the text codec makes of the text that it
/// wrote for the tree, with nothing lost or added at the boundary.
pub proof fn lemma_decoded_text_is_parsed_as_written(tree: Save)
    requires
        decode_outcome(Ok(tree)) is Ok,
    ensures
        tree_text(tree) is Ok,
        parse_outcome(decode_outcome(Ok(tree))->Ok_0) == reported(
            text_tree(tree_text(tree)->Ok_0),
            ErrorKind::TextDecodeError,
        ),
{
    lemma_text_survives_boundary(tree_text(tree)->Ok_0);
}

/// Whether the text codec reads `tree` back from the text that it writes for
/// it, and that text can be framed.
pub open spec fn text_round_trips(tree: Save) -> bool {
    &&& tree_text(tree) is Ok
    &&& !has_nul(encode_utf8(tree_text(tree)->Ok_0))
    &&& text_tree(tree_text(tree)->Ok_0) == Ok::<Save, Seq<char>>(tree)
}

/// Text round-trips to an equal tree: where the text codec reads a tree back
/// from its own text, decoding the tree and parsing the decoded text gives
/// that tree.
pub proof fn lemma_tree_survives_text(tree: Save)
    requires
        text_round_trips(tree),
    ensures
        decode_outcome(Ok(tree)) is Ok,
        parse_outcome(decode_outcome(Ok(tree))->Ok_0) == Ok::<Save, (ErrorKind, Seq<char>)>(tree),
{
    lemma_decoded_text_is_parsed_as_written(tree);
}

} // verus!
