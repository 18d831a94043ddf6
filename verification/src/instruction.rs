use crate::error::DecodeError;
use vstd::bytes::{spec_u32_from_le_bytes, u32_from_le_bytes};
use vstd::prelude::*;
use vstd::slice::slice_subrange;

verus! {

/// A command of the instruction stream. The wire form is one tag byte
/// followed by a payload whose length depends on the tag: empty for
/// `Increment` and `Decrement`, exactly four little-endian bytes for
/// `SetAge`. The variant set is closed: a buffer with any other tag does
/// not decode.
#[derive(Debug, Clone, Copy, PartialEq, Eq, Structural)]
pub enum HelloInstruction {
    Increment,
    Decrement,
    SetAge(u32),
}

impl HelloInstruction {
    /// Decodes an instruction buffer: byte 0 is the tag, the rest is the
    /// payload. Tags 0 and 1 ignore whatever trails them; tag 2 demands a
    /// payload of exactly four bytes, read as a little-endian `u32`.
    pub fn unpack(input: &[u8]) -> (r: Result<HelloInstruction, DecodeError>)
        ensures
            input@.len() == 0 ==> r == Err::<HelloInstruction, DecodeError>(
                DecodeError::MissingTag,
            ),
            input@.len() > 0 && input@[0] == 0 ==> r == Ok::<HelloInstruction, DecodeError>(
                HelloInstruction::Increment,
            ),
            input@.len() > 0 && input@[0] == 1 ==> r == Ok::<HelloInstruction, DecodeError>(
                HelloInstruction::Decrement,
            ),
            input@[0] == 2 && input@.len() == 5 ==> r == Ok::<HelloInstruction, DecodeError>(
                HelloInstruction::SetAge(spec_u32_from_le_bytes(input@.subrange(1, 5))),
            ),
            input@.len() > 0 && input@[0] == 2 && input@.len() != 5 ==> r == Err::<
                HelloInstruction,
                DecodeError,
            >(DecodeError::InvalidPayloadLength),
            input@.len() > 0 && input@[0] != 0 && input@[0] != 1 && input@[0] != 2 ==> r == Err::<
                HelloInstruction,
                DecodeError,
            >(DecodeError::UnrecognizedTag),
    {
        if input.len() == 0 {
            return Err(DecodeError::MissingTag);
        }
        let tag = input[0];
        match tag {
            0 => Ok(HelloInstruction::Increment),
            1 => Ok(HelloInstruction::Decrement),
            2 => {
                if input.len() != 5 {
                    return Err(DecodeError::InvalidPayloadLength);
                }
                let payload = slice_subrange(input, 1, 5);
                Ok(HelloInstruction::SetAge(u32_from_le_bytes(payload)))
            },
            _ => Err(DecodeError::UnrecognizedTag),
        }
    }
}

} // verus!
