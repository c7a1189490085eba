//! Wire-level value types.
//!
//! A [`Frame`] is one self-delimited unit of the wire protocol, as the
//! frame codec hands it over after decoding a byte stream. A
//! [`Response`] is the value the handler sends back: a simple status
//! string, a bulk byte payload, or a null marker for an absent key.
//! The codec itself (bytes on and off the socket) is an external
//! collaborator; the library only looks at decoded frames.

use vstd::prelude::*;

verus! {

/// One decoded unit of the wire protocol.
///
/// Requests arrive as an `Array` of `Bulk` parts (the command name,
/// then its arguments); every other shape is meaningful only as a
/// diagnostic payload of an unsupported command.
#[derive(Debug, PartialEq, Eq)]
pub enum Frame {
    /// A simple status string.
    Simple(String),
    /// An error string.
    Error(String),
    /// An unsigned integer.
    Integer(u64),
    /// A binary payload.
    Bulk(Vec<u8>),
    /// The null marker.
    Null,
    /// A sequence of frames; requests are flat arrays of bulk parts.
    Array(Vec<Frame>),
}

/// The value the handler answers one command with.
///
/// `Simple` acknowledges a successful write, `Bulk` carries a stored
/// value, and `Null` reports an absent key.
#[derive(Debug, Clone, PartialEq, Eq)]
pub enum Response {
    /// A status string, such as the acknowledgement of a write.
    Simple(String),
    /// A stored value.
    Bulk(Vec<u8>),
    /// The marker for a key that holds no value.
    Null,
}

} // verus!
