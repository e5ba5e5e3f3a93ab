//! Errors of the wire decoders.
use vstd::prelude::*;

verus! {

/// Why a wire message could not be decoded.
#[derive(Clone, Copy, Debug, PartialEq, Eq, Structural)]
pub enum DecodeError {
    /// A field that the message needs was absent.
    MissingField,
    /// Key bytes of a length that the key's algorithm does not have.
    InvalidKeyLength,
    /// A timestamp whose nanosecond part lies outside `0..1_000_000_000`.
    InvalidTimestamp,
}

} // verus!
