//! Transcoding of GVAS save payloads to and from their canonical text, with
//! the buffers that cross the native boundary modelled as owned handles.
//!
//! The binary reader and writer of `uesave` can panic on what they are
//! given. They are therefore run by the caller, where a panic can be caught,
//! and this library takes their results: [`TypeHintMap::from_pairs`] and
//! [`deserialize`] stand before and after the reader, [`parse`] and
//! [`serialize`] before and after the writer.

pub mod bridge;
pub mod buffer;
pub mod codec;
pub mod error;
pub mod hints;
pub mod ledger;
pub mod text;
pub mod tree;

pub use bridge::{deserialize, parse, serialize};
pub use buffer::ByteBuffer;
pub use error::{ErrorKind, ReadCause, ReadFailure, TranscodeError};
pub use hints::{KeyValuePair, TypeHintMap};
pub use ledger::{free_rust_string, free_rust_vec};
pub use text::TextBuffer;
