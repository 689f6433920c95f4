//! The keep-alive message, sent by both sides of the link.

use crate::wire::{
    first_field, lemma_field_extent, lemma_varint_field_reads_back, read_field, varint_field,
    write_varint_field, DecodeError, Field, FieldValue, RawValue,
};
use vstd::prelude::*;
use vstd::slice::slice_subrange;

verus! {

/// Field number of the timestamp.
pub const TIMESTAMP_TAG: u32 = 1;

/// A keep-alive: the sender's clock in milliseconds since the Unix epoch.
#[derive(Debug, Clone, Copy, PartialEq, Eq, Structural)]
pub struct HeartBeat {
    pub timestamp: u64,
}

impl HeartBeat {
    /// The bytes of the message: the timestamp field, left out when it is 0.
    pub open spec fn encoding(self) -> Seq<u8> {
        if self.timestamp == 0 {
            Seq::empty()
        } else {
            varint_field(TIMESTAMP_TAG, self.timestamp)
        }
    }

    /// The message after one more field was read into it: a timestamp field
    /// replaces the timestamp, any other field is passed over.
    pub open spec fn with_field(self, field: Field) -> Result<HeartBeat, DecodeError> {
        if field.tag == TIMESTAMP_TAG {
            match field.value {
                FieldValue::Varint(timestamp) => Ok(HeartBeat { timestamp }),
                _ => Err(DecodeError::UnexpectedWireType),
            }
        } else {
            Ok(self)
        }
    }

    /// The message after every field of `bytes` was read into it, in order.
    pub open spec fn merged(self, bytes: Seq<u8>) -> Result<HeartBeat, DecodeError>
        decreases bytes.len(),
    {
        if bytes.len() == 0 {
            Ok(self)
        } else {
            match first_field(bytes) {
                Err(e) => Err(e),
                Ok(field) => match self.with_field(field) {
                    Err(e) => Err(e),
                    Ok(next) => if 0 < field.len <= bytes.len() {
                        next.merged(bytes.skip(field.len))
                    } else {
                        Err(DecodeError::BufferUnderflow)
                    },
                },
            }
        }
    }

    /// What is written reads back: the bytes of `written`, read into any
    /// message, give `written`, or leave the message as it was where
    /// `written` carries the timestamp 0 and so takes no bytes at all.
    pub proof fn lemma_reads_back(self, written: HeartBeat)
        ensures
            self.merged(written.encoding()) == Ok::<HeartBeat, DecodeError>(
                if written.timestamp == 0 {
                    self
                } else {
                    written
                },
            ),
    {
        if written.timestamp != 0 {
            let bytes = written.encoding();
            lemma_varint_field_reads_back(TIMESTAMP_TAG, written.timestamp, Seq::empty());
            assert(written.merged(Seq::empty()) == Ok::<HeartBeat, DecodeError>(written));
        }
    }

    /// Appends the bytes of the message to `out`.
    pub fn encode(&self, out: &mut Vec<u8>)
        ensures
            final(out)@ == old(out)@ + self.encoding(),
    {
        if self.timestamp != 0 {
            write_varint_field(TIMESTAMP_TAG, self.timestamp, out);
        }
    }

    /// The bytes of the message.
    pub fn encode_to_vec(&self) -> (bytes: Vec<u8>)
        ensures
            bytes@ == self.encoding(),
    {
        let mut out: Vec<u8> = Vec::new();
        self.encode(&mut out);
        out
    }

    /// Reads every field of `bytes` into the message, in order.
    pub fn merge(self, bytes: &[u8]) -> (merged: Result<HeartBeat, DecodeError>)
        ensures
            merged == self.merged(bytes@),
    {
        let mut message = self;
        let mut rest = bytes;
        while rest.len() > 0
            invariant
                message.merged(rest@) == self.merged(bytes@),
            decreases rest@.len(),
        {
            proof {
                lemma_field_extent(rest@);
            }
            let field = match read_field(rest) {
                Ok(field) => field,
                Err(e) => {
                    return Err(e);
                },
            };
            if field.tag == TIMESTAMP_TAG {
                match field.value {
                    RawValue::Varint(timestamp) => {
                        message = HeartBeat { timestamp };
                    },
                    _ => {
                        return Err(DecodeError::UnexpectedWireType);
                    },
                }
            }
            rest = slice_subrange(rest, field.len, rest.len());
        }
        Ok(message)
    }

    /// Reads a message from `bytes`.
    pub fn decode(bytes: &[u8]) -> (decoded: Result<HeartBeat, DecodeError>)
        ensures
            decoded == (HeartBeat { timestamp: 0 }).merged(bytes@),
    {
        (HeartBeat { timestamp: 0 }).merge(bytes)
    }
}

} // verus!
