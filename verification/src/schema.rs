use crate::error::DecodeError;
use vstd::bytes::{
    lemma_auto_spec_u32_to_from_le_bytes, spec_u32_from_le_bytes, spec_u32_to_le_bytes,
    u32_from_le_bytes, u32_to_le_bytes,
};
use vstd::prelude::*;

verus! {

/// The whole persisted state: a single greeting counter. Its backing bytes
/// are owned by the caller; this codec only turns them into a value and
/// back, never retaining a reference.
#[derive(Debug, Clone, Copy, PartialEq, Eq, Structural)]
pub struct GreetingAccount {
    /// number of greetings
    pub counter: u32,
}

/// The fixed on-disk layout of a `GreetingAccount`: its counter as exactly
/// four little-endian bytes, nothing else.
pub open spec fn encoded_account(account: GreetingAccount) -> Seq<u8> {
    spec_u32_to_le_bytes(account.counter)
}

/// What decoding a state-record buffer yields: the counter read from exactly
/// four little-endian bytes, or `MalformedRecord` for any other length.
pub open spec fn decoded_account(bytes: Seq<u8>) -> Result<GreetingAccount, DecodeError> {
    if bytes.len() == 4 {
        Ok(GreetingAccount { counter: spec_u32_from_le_bytes(bytes) })
    } else {
        Err(DecodeError::MalformedRecord)
    }
}

/// Decodes a state record from the bytes the caller read out of storage.
/// The buffer must hold the record exactly: four bytes, little-endian;
/// anything shorter, longer or empty is a malformed record.
pub fn get_greetings_account(data: &[u8]) -> (r: Result<GreetingAccount, DecodeError>)
    ensures
        r == decoded_account(data@),
        data@.len() == 4 ==> r == Ok::<GreetingAccount, DecodeError>(
            GreetingAccount { counter: spec_u32_from_le_bytes(data@) },
        ),
        data@.len() != 4 ==> r == Err::<GreetingAccount, DecodeError>(DecodeError::MalformedRecord),
{
    if data.len() != 4 {
        return Err(DecodeError::MalformedRecord);
    }
    Ok(GreetingAccount { counter: u32_from_le_bytes(data) })
}

impl GreetingAccount {
    /// Encodes the record in the same fixed layout that
    /// `get_greetings_account` consumes; the caller writes the returned
    /// bytes back into storage. Encoding always succeeds.
    pub fn encode(&self) -> (r: Vec<u8>)
        ensures
            r@ == encoded_account(*self),
            r@.len() == 4,
    {
        proof {
            lemma_auto_spec_u32_to_from_le_bytes();
        }
        u32_to_le_bytes(self.counter)
    }
}

/// Round-trip law: decoding what `encode` produced gives back the very
/// record, for every counter value.
pub proof fn lemma_account_round_trip(account: GreetingAccount)
    ensures
        decoded_account(encoded_account(account)) == Ok::<GreetingAccount, DecodeError>(account),
{
    lemma_auto_spec_u32_to_from_le_bytes();
}

} // verus!
