use vstd::prelude::*;

verus! {

/// Why a byte buffer could not be decoded. Every failure of the instruction
/// decoder or of the state-record codec is reported through one of these
/// variants; the library never panics on malformed input.
#[derive(Debug, Clone, Copy, PartialEq, Eq, Structural)]
pub enum DecodeError {
    /// The instruction buffer was empty, so there was no tag byte to dispatch on.
    MissingTag,
    /// The tag byte was none of the recognized command discriminants.
    UnrecognizedTag,
    /// The tag asked for a fixed-size payload and the remaining bytes were not
    /// exactly that size.
    InvalidPayloadLength,
    /// The state-record bytes do not hold exactly one little-endian `u32`.
    MalformedRecord,
}

} // verus!
