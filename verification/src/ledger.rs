//! Taking buffers back. A caller holds each buffer in a slot that is empty
//! once the buffer has been given back; an empty slot stands for the null
//! reference.

use crate::buffer::ByteBuffer;
use crate::text::TextBuffer;
use vstd::prelude::*;

verus! {

/// Whether a payload slot may be given back with `len` and `cap`: an empty
/// slot with any, a buffer with exactly those that it reports.
pub open spec fn matches_report(slot: Option<ByteBuffer>, len: usize, cap: usize) -> bool {
    match slot {
        None => true,
        Some(buffer) => buffer.length() == len && buffer.reserved() == cap,
    }
}

/// Takes a text buffer back. Its extent is known from its terminator, so
/// nothing else is asked for. The slot is empty afterwards; on an empty slot
/// the call does nothing.
pub fn free_rust_string(s: &mut Option<TextBuffer>)
    ensures
        *final(s) is None,
{
    *s = None;
}

/// Takes a payload buffer back. The caller names the length and capacity
/// that the buffer reported when it was handed out. The slot is empty
/// afterwards; on an empty slot the call does nothing.
pub fn free_rust_vec(p: &mut Option<ByteBuffer>, len: usize, cap: usize)
    requires
        matches_report(*old(p), len, cap),
    ensures
        *final(p) is None,
{
    *p = None;
}

/// A buffer is accepted back with the length and capacity that it reports.
pub proof fn lemma_report_is_accepted(buffer: ByteBuffer)
    ensures
        matches_report(Some(buffer), buffer.length(), buffer.reserved()),
{
}

/// A slot that has been emptied is accepted again, whatever length and
/// capacity come with it: giving back twice through the same slot is harmless.
pub proof fn lemma_empty_slot_is_accepted(len: usize, cap: usize)
    ensures
        matches_report(None, len, cap),
{
}

} // verus!
