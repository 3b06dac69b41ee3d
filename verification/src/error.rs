//! What can go wrong before a request is sent or while a response is read.

use vstd::prelude::*;

verus! {

/// Why a response document could not be turned into a typed result.
#[derive(Clone, Copy, Debug, PartialEq, Eq, Structural)]
pub enum DecodeError {
    /// The document is not well-formed, or its elements are not laid out as an
    /// envelope with at most one payload element.
    Malformed,
    /// The payload element's name is in no alias table.
    UnknownVariant,
    /// A required attribute or text is absent.
    MissingField,
    /// An attribute or text is present but is no value of the field's type.
    InvalidValue,
}

/// Why a client could not be built or a request could not be formed.
#[derive(Clone, Copy, Debug, PartialEq, Eq, Structural)]
pub enum Error {
    /// The server is older than the operation needs: the server's triple, then
    /// the required one.
    APIVersionMismatch(u32, u32, u32, u32, u32, u32),
    /// The server is older than a supplied argument needs: the server's
    /// triple, then the required one.
    ArgsVersionMismatch(u32, u32, u32, u32, u32, u32),
    /// The server's self-reported version is not three dot-separated numerals.
    VersionParse,
    /// The discovery response could not be decoded.
    Decode(DecodeError),
}

} // verus!
