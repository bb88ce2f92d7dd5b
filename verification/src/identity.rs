//! The opaque fixed-size identity value and its fallible constructor from
//! text.
//!
//! An identity is a 32-byte account address. The identity system receives it
//! as base-58 text and parses it through the address parser of the hosting
//! runtime's SDK; the parse is the only outside call, and everything after it
//! works on the plain 32 bytes.

use vstd::prelude::*;
use crate::errors::IdentityParseKind;

verus! {

/// An opaque fixed-size identity value: a 32-byte account address.
#[derive(Clone, Copy, Debug, PartialEq, Eq)]
pub struct Pubkey {
    pub bytes: [u8; 32],
}

impl View for Pubkey {
    type V = Seq<u8>;

    open spec fn view(&self) -> Seq<u8> {
        self.bytes@
    }
}

/// The 32 bytes that a piece of text decodes to as a base-58 address, or
/// nothing when the text is not a well-formed address.
pub uninterp spec fn parsed_identity(s: Seq<char>) -> Option<Seq<u8>>;

/// Relies on `solana_program::pubkey::Pubkey::from_str`: base-58 decoding of
/// a 32-byte address, failing on text of the wrong size or with a character
/// outside the base-58 alphabet; `Pubkey::to_bytes` only hands the decoded
/// array out. The result depends on the text alone.
#[verifier::external_body]
pub(crate) fn parse_pubkey_text(s: &str) -> (r: Result<[u8; 32], IdentityParseKind>)
    ensures
        r is Ok <==> parsed_identity(s@) is Some,
        r matches Ok(b) ==> parsed_identity(s@) == Some(b@),
{
    match <solana_program::pubkey::Pubkey as core::str::FromStr>::from_str(s) {
        Ok(pk) => Ok(pk.to_bytes()),
        Err(solana_program::pubkey::ParsePubkeyError::WrongSize) => {
            Err(IdentityParseKind::WrongSize)
        },
        Err(solana_program::pubkey::ParsePubkeyError::Invalid) => Err(IdentityParseKind::Invalid),
    }
}

} // verus!
