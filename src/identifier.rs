//! Account identifiers: 32-byte public keys written in base 58.
use vstd::prelude::*;

use crate::error::IndexerError;

verus! {

/// The base-58 text of a byte string, as Solana writes a public key.
pub uninterp spec fn base58_text(bytes: Seq<u8>) -> Seq<char>;

/// A character of the base-58 alphabet (digits and letters without
/// `0`, `O`, `I` and `l`).
pub open spec fn is_base58_char(c: char) -> bool {
    ||| ('1' <= c && c <= '9')
    ||| ('A' <= c && c <= 'Z' && c != 'I' && c != 'O')
    ||| ('a' <= c && c <= 'z' && c != 'l')
}

/// Every character of `s` is in the base-58 alphabet.
pub open spec fn all_base58(s: Seq<char>) -> bool {
    forall|i: int| 0 <= i < s.len() ==> is_base58_char(#[trigger] s[i])
}

/// `s` is the base-58 text of some 32-byte key.
pub open spec fn is_identifier_text(s: Seq<char>) -> bool {
    exists|b: Seq<u8>| b.len() == 32 && #[trigger] base58_text(b) == s
}

#[verifier::external_type_specification]
#[verifier::external_body]
pub struct ExParsePubkeyError(solana_sdk::pubkey::ParsePubkeyError);

/// Relies on `Pubkey::from_str` (solana-pubkey, through five8's `decode_32`):
/// it accepts at most 44 characters of the base-58 alphabet, and exactly the
/// texts that encode 32 bytes, whose bytes it returns.
#[verifier::external_body]
fn pubkey_from_str(s: &str) -> (r: Result<[u8; 32], solana_sdk::pubkey::ParsePubkeyError>)
    ensures
        r is Ok <==> is_identifier_text(s@),
        r is Ok ==> s@.len() <= 44 && all_base58(s@),
        r matches Ok(v) ==> base58_text(v@) == s@,
{
    <solana_sdk::pubkey::Pubkey as std::str::FromStr>::from_str(s).map(|p| p.to_bytes())
}

/// Relies on `Pubkey`'s `Display` (five8's `encode_32`): the base-58 text of
/// the key's 32 bytes.
#[verifier::external_body]
fn pubkey_to_string(bytes: [u8; 32]) -> (r: String)
    ensures
        r@ == base58_text(bytes@),
{
    solana_sdk::pubkey::Pubkey::new_from_array(bytes).to_string()
}

/// The identifier of an account or a program: a 32-byte public key.
#[derive(Clone, Copy, Debug, PartialEq, Eq)]
pub struct Identifier {
    pub bytes: [u8; 32],
}

impl Identifier {
    /// The key's bytes as a sequence.
    pub open spec fn key(&self) -> Seq<u8> {
        self.bytes@
    }

    /// The key written in base 58.
    pub fn to_text(&self) -> (r: String)
        ensures
            r@ == base58_text(self.key()),
    {
        pubkey_to_string(self.bytes)
    }
}

/// Parses the base-58 text of an identifier. It succeeds exactly on the texts
/// that encode 32 bytes, and so fails on any text with a character outside the
/// base-58 alphabet or of another decoded length.
pub fn parse_identifier(s: &str) -> (r: Result<Identifier, IndexerError>)
    ensures
        r is Ok <==> is_identifier_text(s@),
        r matches Ok(id) ==> base58_text(id.key()) == s@,
        !all_base58(s@) ==> r == Err::<Identifier, IndexerError>(
            IndexerError::InvalidIdentifier,
        ),
        r matches Err(e) ==> e == IndexerError::InvalidIdentifier,
{
    match pubkey_from_str(s) {
        Ok(bytes) => Ok(Identifier { bytes }),
        Err(_) => Err(IndexerError::InvalidIdentifier),
    }
}

} // verus!
