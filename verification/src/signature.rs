//! Checking that a string is a transaction signature before it is sent out.

use std::str::FromStr;
use vstd::prelude::*;

verus! {

/// Why a string is not a signature.
#[derive(Debug, Clone, Copy, PartialEq, Eq, Structural)]
pub enum ParseSignatureError {
    /// The string does not decode to exactly 64 bytes.
    WrongSize,
    /// The string is not base58.
    Invalid,
}

impl ParseSignatureError {
    /// The error in words.
    pub fn message(&self) -> (text: String)
        ensures
            text@ == (match self {
                ParseSignatureError::WrongSize => "string decoded to wrong size for signature"@,
                ParseSignatureError::Invalid => "failed to decode string to signature"@,
            }),
    {
        match self {
            ParseSignatureError::WrongSize => "string decoded to wrong size for signature".to_string(),
            ParseSignatureError::Invalid => "failed to decode string to signature".to_string(),
        }
    }
}

/// What `solana_signature::Signature::from_str` makes of a string: the 64
/// bytes of the signature, or the reason why the string is none.
pub uninterp spec fn signature_from_str(text: Seq<char>) -> Result<Seq<u8>, ParseSignatureError>;

/// `solana_signature::Signature::from_str`: decodes a base58 string into the
/// bytes of a signature. The contract claims only that the outcome is the one
/// named by [`signature_from_str`], a function of the string alone.
#[verifier::external_body]
pub(crate) fn parse_signature(text: &str) -> (parsed: Result<Vec<u8>, ParseSignatureError>)
    ensures
        match parsed {
            Ok(bytes) => signature_from_str(text@) == Ok::<Seq<u8>, ParseSignatureError>(bytes@),
            Err(e) => signature_from_str(text@) == Err::<Seq<u8>, ParseSignatureError>(e),
        },
{
    match solana_signature::Signature::from_str(text) {
        Ok(signature) => Ok(signature.as_ref().to_vec()),
        Err(solana_signature::ParseSignatureError::WrongSize) => Err(ParseSignatureError::WrongSize),
        Err(solana_signature::ParseSignatureError::Invalid) => Err(ParseSignatureError::Invalid),
    }
}

/// Whether `text` is a well-formed signature.
pub open spec fn is_signature(text: Seq<char>) -> bool {
    signature_from_str(text) is Ok
}

/// Checks that `text` is a well-formed signature.
pub fn check_signature(text: &String) -> (checked: Result<(), ParseSignatureError>)
    ensures
        match checked {
            Ok(()) => is_signature(text@),
            Err(e) => signature_from_str(text@) == Err::<Seq<u8>, ParseSignatureError>(e),
        },
{
    match parse_signature(text.as_str()) {
        Ok(_) => Ok(()),
        Err(e) => Err(e),
    }
}

} // verus!
