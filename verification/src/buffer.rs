//! The payload buffer: bytes for a caller, together with the length and the
//! capacity that the caller has to name when it gives them back.

use vstd::prelude::*;

verus! {

/// Calls `Vec::capacity`. A vector's capacity is never below its length; how
/// far above it lies is the allocator's choice.
#[verifier::external_body]
fn vec_capacity(bytes: &Vec<u8>) -> (capacity: usize)
    ensures
        capacity >= bytes@.len(),
{
    bytes.capacity()
}

/// A binary payload that the library owns until it is handed to a caller,
/// tagged with the capacity of its storage.
#[derive(Debug)]
pub struct ByteBuffer {
    bytes: Vec<u8>,
    capacity: usize,
}

impl View for ByteBuffer {
    type V = (Seq<u8>, usize);

    /// The payload, and the capacity recorded for its storage.
    closed spec fn view(&self) -> (Seq<u8>, usize) {
        (self.bytes@, self.capacity)
    }
}

impl ByteBuffer {
    #[verifier::type_invariant]
    spec fn well_formed(&self) -> bool {
        self.capacity >= self.bytes@.len()
    }

    /// The payload.
    pub open spec fn payload(&self) -> Seq<u8> {
        self@.0
    }

    /// The length that the buffer reports.
    pub closed spec fn length(&self) -> usize {
        self.bytes.len()
    }

    /// The capacity that the buffer reports.
    pub open spec fn reserved(&self) -> usize {
        self@.1
    }

    /// The reported length is the payload's.
    pub proof fn lemma_length(self)
        ensures
            self.length() == self.payload().len(),
    {
    }

    /// Takes ownership of `bytes` and tags it with `capacity`, the capacity
    /// that was read off its storage.
    pub fn with_capacity_read(bytes: Vec<u8>, capacity: usize) -> (buffer: ByteBuffer)
        requires
            capacity >= bytes@.len(),
        ensures
            buffer@ == (bytes@, capacity),
            buffer.length() == bytes@.len(),
    {
        ByteBuffer { bytes, capacity }
    }

    /// Takes ownership of `bytes`, reads the capacity of its storage and tags
    /// it with that.
    pub fn new(bytes: Vec<u8>) -> (buffer: ByteBuffer)
        ensures
            buffer.payload() == bytes@,
            buffer.length() == bytes@.len(),
            buffer.reserved() >= buffer.length(),
    {
        let capacity: usize = vec_capacity(&bytes);
        ByteBuffer::with_capacity_read(bytes, capacity)
    }

    /// The number of bytes in the payload.
    pub fn len(&self) -> (n: usize)
        ensures
            n == self.length(),
            n == self.payload().len(),
    {
        self.bytes.len()
    }

    /// The capacity recorded when the buffer was made.
    pub fn capacity(&self) -> (c: usize)
        ensures
            c == self.reserved(),
            c >= self.payload().len(),
    {
        proof {
            use_type_invariant(self);
        }
        self.capacity
    }

    /// The payload.
    pub fn as_slice(&self) -> (r: &[u8])
        ensures
            r@ == self.payload(),
    {
        self.bytes.as_slice()
    }

    /// Gives the buffer up as a plain vector.
    pub fn into_vec(self) -> (r: Vec<u8>)
        ensures
            r@ == self.payload(),
    {
        self.bytes
    }
}

} // verus!
