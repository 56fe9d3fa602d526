//! Text at the boundary: bytes from a caller decoded without rejection, and
//! text for a caller framed as a null-terminated buffer.

use crate::error::{outcome, ErrorKind, Outcome, TranscodeError};
use vstd::prelude::*;
use vstd::slice::slice_subrange;
use vstd::utf8::*;

verus! {

/// What `String::from_utf8_lossy` makes of bytes that are not valid UTF-8.
pub uninterp spec fn utf8_replaced(bytes: Seq<u8>) -> Seq<char>;

/// The text that a caller's bytes stand for: their decoding where they are
/// valid UTF-8, and the decoding with every invalid sequence replaced where
/// they are not.
pub open spec fn lossy_text(bytes: Seq<u8>) -> Seq<char> {
    if valid_utf8(bytes) {
        decode_utf8(bytes)
    } else {
        utf8_replaced(bytes)
    }
}

/// Calls `String::from_utf8_lossy` and takes the owned string. Valid UTF-8
/// comes back unchanged; anything else is a function of the bytes that this
/// library only names.
#[verifier::external_body]
pub(crate) fn from_utf8_lossy(bytes: &[u8]) -> (text: String)
    ensures
        valid_utf8(bytes@) ==> text@ == decode_utf8(bytes@),
        !valid_utf8(bytes@) ==> text@ == utf8_replaced(bytes@),
{
    String::from_utf8_lossy(bytes).into_owned()
}

/// Whether `bytes` holds a NUL.
pub open spec fn has_nul(bytes: Seq<u8>) -> bool {
    bytes.contains(0u8)
}

/// `text` with the terminator behind it.
pub open spec fn terminated(text: Seq<u8>) -> Seq<u8> {
    text.push(0u8)
}

/// Whether `buffer` is text followed by its terminator: the only NUL is the
/// last byte.
pub open spec fn is_c_text(buffer: Seq<u8>) -> bool {
    &&& buffer.len() > 0
    &&& buffer.last() == 0u8
    &&& !has_nul(buffer.drop_last())
}

/// What a reader of a null-terminated buffer sees: the bytes before the first
/// NUL, and all of them where there is none.
pub open spec fn c_text(buffer: Seq<u8>) -> Seq<u8> {
    match buffer.index_of_first(0u8) {
        Some(i) => buffer.take(i),
        None => buffer,
    }
}

/// The message of the failure to frame text that holds a NUL.
pub open spec fn nul_message() -> Seq<char> {
    "text holds a NUL byte"@
}

/// Framing text for a caller: its UTF-8 bytes with the terminator behind
/// them, or a failure where they hold a NUL.
pub open spec fn framed(text: Seq<char>) -> Outcome<Seq<u8>> {
    if has_nul(encode_utf8(text)) {
        Err((ErrorKind::TextEncodeError, nul_message()))
    } else {
        Ok(terminated(encode_utf8(text)))
    }
}

/// In a buffer that is text followed by its terminator, the first NUL is the
/// last byte: a reader that stops at the first NUL sees all of the text, and
/// the buffer's length is the text's length and one.
pub proof fn lemma_c_text_is_all_but_last(buffer: Seq<u8>)
    requires
        is_c_text(buffer),
    ensures
        buffer.index_of_first(0u8) == Some(buffer.len() - 1),
        c_text(buffer) == buffer.drop_last(),
        c_text(buffer).len() + 1 == buffer.len(),
{
    buffer.index_of_first_ensures(0u8);
    let first = buffer.index_of_first(0u8)->Some_0;
    if first < buffer.len() - 1 {
        assert(buffer.drop_last()[first] == 0u8);
    }
}

/// Text without a NUL is read back from its terminated form unchanged.
pub proof fn lemma_c_text_of_terminated(text: Seq<u8>)
    requires
        !has_nul(text),
    ensures
        is_c_text(terminated(text)),
        c_text(terminated(text)) == text,
{
    lemma_c_text_is_all_but_last(terminated(text));
}

/// Text that was framed for a caller and is handed back as the caller's
/// buffer decodes to the same text: the boundary loses nothing.
pub proof fn lemma_text_survives_boundary(text: Seq<char>)
    requires
        !has_nul(encode_utf8(text)),
    ensures
        lossy_text(c_text(terminated(encode_utf8(text)))) == text,
{
    lemma_c_text_of_terminated(encode_utf8(text));
    encode_utf8_valid_utf8(text);
    encode_utf8_decode_utf8(text);
}

/// Bytes without a NUL are all text.
pub proof fn lemma_c_text_without_nul(bytes: Seq<u8>)
    requires
        !has_nul(bytes),
    ensures
        c_text(bytes) == bytes,
{
    bytes.index_of_first_ensures(0u8);
}

/// The text of a caller's buffer: the bytes before its first NUL.
pub fn text_before_nul(buffer: &[u8]) -> (text: &[u8])
    ensures
        text@ == c_text(buffer@),
{
    let mut i: usize = 0;
    while i < buffer.len() && buffer[i] != 0
        invariant
            i <= buffer.len(),
            forall|j: int| 0 <= j < i ==> buffer@[j] != 0u8,
        decreases buffer.len() - i,
    {
        i += 1;
    }
    proof {
        buffer@.index_of_first_ensures(0u8);
    }
    slice_subrange(buffer, 0, i)
}

/// A null-terminated text buffer that the library owns until it is handed to
/// a caller.
#[derive(Debug)]
pub struct TextBuffer {
    bytes: Vec<u8>,
}

impl View for TextBuffer {
    type V = Seq<u8>;

    closed spec fn view(&self) -> Seq<u8> {
        self.bytes@
    }
}

impl TextBuffer {
    #[verifier::type_invariant]
    spec fn well_formed(&self) -> bool {
        is_c_text(self.bytes@)
    }

    /// Frames `text` as a null-terminated buffer. Text that holds a NUL has
    /// no such form and is refused.
    pub fn new(text: &str) -> (r: Result<TextBuffer, TranscodeError>)
        ensures
            outcome(r) == framed(text@),
    {
        let source = text.as_bytes();
        let mut bytes: Vec<u8> = Vec::new();
        let mut i: usize = 0;
        while i < source.len()
            invariant
                i <= source.len(),
                source@ == encode_utf8(text@),
                bytes@ == source@.take(i as int),
                !has_nul(bytes@),
            decreases source.len() - i,
        {
            let b: u8 = source[i];
            if b == 0 {
                return Err(
                    TranscodeError::new(
                        ErrorKind::TextEncodeError,
                        "text holds a NUL byte".to_owned(),
                    ),
                );
            }
            bytes.push(b);
            i += 1;
        }
        assert(bytes@ =~= source@);
        bytes.push(0u8);
        Ok(TextBuffer { bytes })
    }

    /// Takes bytes that are text followed by its terminator, and no others.
    pub fn from_bytes_with_nul(bytes: Vec<u8>) -> (r: Option<TextBuffer>)
        ensures
            match r {
                Some(buffer) => is_c_text(bytes@) && buffer@ == bytes@,
                None => !is_c_text(bytes@),
            },
    {
        let n: usize = bytes.len();
        if n == 0 || bytes[n - 1] != 0 {
            return None;
        }
        let mut i: usize = 0;
        while i < n - 1
            invariant
                n == bytes.len(),
                n > 0,
                i <= n - 1,
                forall|j: int| 0 <= j < i ==> bytes@[j] != 0u8,
            decreases n - 1 - i,
        {
            if bytes[i] == 0 {
                assert(bytes@.drop_last()[i as int] == 0u8);
                return None;
            }
            i += 1;
        }
        Some(TextBuffer { bytes })
    }

    /// The whole buffer, terminator included.
    pub fn as_bytes_with_nul(&self) -> (r: &[u8])
        ensures
            r@ == self@,
            is_c_text(r@),
    {
        proof {
            use_type_invariant(self);
        }
        self.bytes.as_slice()
    }

    /// The text, without the terminator: what a reader that stops at the
    /// first NUL sees.
    pub fn as_bytes(&self) -> (r: &[u8])
        ensures
            r@ == c_text(self@),
            r@ == self@.drop_last(),
    {
        proof {
            use_type_invariant(self);
            lemma_c_text_is_all_but_last(self.bytes@);
        }
        let n: usize = self.bytes.len();
        slice_subrange(self.bytes.as_slice(), 0, n - 1)
    }

    /// Gives the buffer up as plain bytes, terminator included.
    pub fn into_bytes_with_nul(self) -> (r: Vec<u8>)
        ensures
            r@ == self@,
            is_c_text(r@),
    {
        proof {
            use_type_invariant(&self);
        }
        self.bytes
    }
}

} // verus!
