//! The answer to a login request: the credentials the backend issued.

use crate::wire::{
    delimited_field, first_field, lemma_delimited_field_reads_back, lemma_field_extent,
    lemma_varint_field_reads_back, read_field, read_text, text_of, varint_field, DecodeError,
    Field, FieldValue, RawValue,
};
use vstd::prelude::*;
use vstd::slice::slice_subrange;
use vstd::utf8::encode_utf8;

verus! {

/// Field number of the token.
pub const TOKEN_TAG: u32 = 1;

/// Field number of the end of the token's validity.
pub const EXPIRES_AT_MS_TAG: u32 = 2;

/// The credentials a login issued: a token and the millisecond at which it
/// stops being valid.
#[derive(Debug, Clone, PartialEq)]
pub struct LoginResp {
    pub token: String,
    pub expires_at_ms: i64,
}

/// What a [`LoginResp`] holds.
pub struct IssuedCredentials {
    pub token: Seq<char>,
    pub expires_at_ms: i64,
}

impl View for LoginResp {
    type V = IssuedCredentials;

    open spec fn view(&self) -> IssuedCredentials {
        IssuedCredentials { token: self.token@, expires_at_ms: self.expires_at_ms }
    }
}

impl IssuedCredentials {
    /// The response before any field was read: no token, valid until 0.
    pub open spec fn empty() -> IssuedCredentials {
        IssuedCredentials { token: Seq::empty(), expires_at_ms: 0 }
    }

    /// The response after one more field was read into it: token and end of
    /// validity take the value of their latest field, any other field is
    /// passed over.
    pub open spec fn with_field(self, field: Field) -> Result<IssuedCredentials, DecodeError> {
        if field.tag == TOKEN_TAG {
            match field.value {
                FieldValue::Bytes(text) => match text_of(text) {
                    Ok(token) => Ok(IssuedCredentials { token, ..self }),
                    Err(e) => Err(e),
                },
                _ => Err(DecodeError::UnexpectedWireType),
            }
        } else if field.tag == EXPIRES_AT_MS_TAG {
            match field.value {
                FieldValue::Varint(end) => Ok(
                    IssuedCredentials { expires_at_ms: end as i64, ..self },
                ),
                _ => Err(DecodeError::UnexpectedWireType),
            }
        } else {
            Ok(self)
        }
    }

    /// The response after every field of `bytes` was read into it, in order.
    pub open spec fn merged(self, bytes: Seq<u8>) -> Result<IssuedCredentials, DecodeError>
        decreases bytes.len(),
    {
        if bytes.len() == 0 {
            Ok(self)
        } else {
            match first_field(bytes) {
                Err(e) => Err(e),
                Ok(field) => match self.with_field(field) {
                    Err(e) => Err(e),
                    Ok(next) => if 0 < field.len <= bytes.len() {
                        next.merged(bytes.skip(field.len))
                    } else {
                        Err(DecodeError::BufferUnderflow)
                    },
                },
            }
        }
    }

    /// The token as it is written: not at all when it is empty, else its
    /// UTF-8 bytes.
    pub open spec fn token_bytes(self) -> Seq<u8> {
        if self.token.len() == 0 {
            Seq::empty()
        } else {
            delimited_field(TOKEN_TAG, encode_utf8(self.token))
        }
    }

    /// The end of validity as it is written: not at all when it is 0, else
    /// as a variable-length integer of 64 bits.
    pub open spec fn expiry_bytes(self) -> Seq<u8> {
        if self.expires_at_ms == 0 {
            Seq::empty()
        } else {
            varint_field(EXPIRES_AT_MS_TAG, self.expires_at_ms as u64)
        }
    }

    /// The bytes a backend writes for the response.
    pub open spec fn encoding(self) -> Seq<u8> {
        self.token_bytes() + self.expiry_bytes()
    }

    /// What a backend writes reads back: the bytes of a response, read into
    /// the empty response, give that response.
    pub proof fn lemma_reads_back(self)
        requires
            encode_utf8(self.token).len() <= u64::MAX,
        ensures
            Self::empty().merged(self.encoding()) == Ok::<IssuedCredentials, DecodeError>(self),
    {
        let token = self.token_bytes();
        let expiry = self.expiry_bytes();
        let after_token = IssuedCredentials { token: self.token, expires_at_ms: 0 };
        assert(after_token.merged(expiry) == Ok::<IssuedCredentials, DecodeError>(self)) by {
            if self.expires_at_ms != 0 {
                let end = self.expires_at_ms;
                assert((end as u64) as i64 == end) by (bit_vector);
                lemma_varint_field_reads_back(EXPIRES_AT_MS_TAG, end as u64, Seq::empty());
                assert(expiry + Seq::<u8>::empty() =~= expiry);
                lemma_field_extent(expiry);
                assert(self.merged(Seq::empty()) == Ok::<IssuedCredentials, DecodeError>(self));
            }
        }
        if self.token.len() != 0 {
            vstd::utf8::encode_utf8_valid_utf8(self.token);
            vstd::utf8::encode_utf8_decode_utf8(self.token);
            lemma_delimited_field_reads_back(TOKEN_TAG, encode_utf8(self.token), expiry);
            lemma_field_extent(token + expiry);
        } else {
            assert(token + expiry =~= expiry);
            assert(self.token =~= Seq::<char>::empty());
        }
    }
}

impl LoginResp {
    /// A response without a token, valid until 0.
    pub fn new() -> (response: Self)
        ensures
            response@ == IssuedCredentials::empty(),
    {
        LoginResp { token: String::new(), expires_at_ms: 0 }
    }

    /// Reads every field of `bytes` into the response, in order.
    pub fn merge(self, bytes: &[u8]) -> (merged: Result<LoginResp, DecodeError>)
        ensures
            match merged {
                Ok(response) => self@.merged(bytes@) == Ok::<IssuedCredentials, DecodeError>(
                    response@,
                ),
                Err(e) => self@.merged(bytes@) == Err::<IssuedCredentials, DecodeError>(e),
            },
    {
        let mut response = self;
        let mut rest = bytes;
        while rest.len() > 0
            invariant
                response@.merged(rest@) == self@.merged(bytes@),
            decreases rest@.len(),
        {
            proof {
                lemma_field_extent(rest@);
            }
            let field = match read_field(rest) {
                Ok(field) => field,
                Err(e) => {
                    return Err(e);
                },
            };
            if field.tag == TOKEN_TAG {
                match field.value {
                    RawValue::Bytes(text) => match read_text(text) {
                        Ok(token) => {
                            response = LoginResp { token, expires_at_ms: response.expires_at_ms };
                        },
                        Err(e) => {
                            return Err(e);
                        },
                    },
                    _ => {
                        return Err(DecodeError::UnexpectedWireType);
                    },
                }
            } else if field.tag == EXPIRES_AT_MS_TAG {
                match field.value {
                    RawValue::Varint(end) => {
                        response = LoginResp {
                            token: response.token,
                            expires_at_ms: #[verifier::truncate]
                            (end as i64),
                        };
                    },
                    _ => {
                        return Err(DecodeError::UnexpectedWireType);
                    },
                }
            }
            rest = slice_subrange(rest, field.len, rest.len());
        }
        Ok(response)
    }

    /// Reads a response from `bytes`.
    pub fn decode(bytes: &[u8]) -> (decoded: Result<LoginResp, DecodeError>)
        ensures
            match decoded {
                Ok(response) => IssuedCredentials::empty().merged(bytes@) == Ok::<
                    IssuedCredentials,
                    DecodeError,
                >(response@),
                Err(e) => IssuedCredentials::empty().merged(bytes@) == Err::<
                    IssuedCredentials,
                    DecodeError,
                >(e),
            },
    {
        LoginResp::new().merge(bytes)
    }
}

} // verus!
