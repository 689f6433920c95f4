//! The envelopes the backend sends: a result code, an optional failure
//! reason, and at most one payload.

use crate::heartbeat::HeartBeat;
use crate::login_resp::{IssuedCredentials, LoginResp};
use crate::wire::{
    copy_bytes, delimited_field, first_field, lemma_delimited_field_reads_back,
    lemma_field_extent, lemma_varint_field_reads_back, read_field, read_text, text_of,
    value_of, varint_field, DecodeError, Field, FieldValue, RawValue,
};
use vstd::prelude::*;
use vstd::slice::slice_subrange;
use vstd::utf8::encode_utf8;

verus! {

/// Field number of the result code.
pub const CODE_TAG: u32 = 1;

/// Field number of the failure reason.
pub const ERROR_MESSAGE_TAG: u32 = 2;

/// Field number of a keep-alive payload.
pub const HEART_BEAT_TAG: u32 = 3;

/// Field number of a login response.
pub const LOGIN_RESP_TAG: u32 = 4;

/// Field number of a logout response.
pub const LOGOUT_RESP_TAG: u32 = 5;

/// Field number of the user's record.
pub const FETCH_USER_RESP_TAG: u32 = 6;

/// The answer to a logout request, still encoded.
#[derive(Debug, Clone, PartialEq)]
pub struct LogoutResp {
    pub body: Vec<u8>,
}

/// The user's record, still encoded.
#[derive(Debug, Clone, PartialEq)]
pub struct FetchUserResp {
    pub body: Vec<u8>,
}

/// What an envelope can carry.
#[derive(Debug, Clone, PartialEq)]
pub enum Payload {
    HeartBeat(HeartBeat),
    LoginResp(LoginResp),
    LogoutResp(LogoutResp),
    FetchUserResp(FetchUserResp),
}

/// What a [`Payload`] holds.
pub enum PayloadView {
    HeartBeat(HeartBeat),
    LoginResp(IssuedCredentials),
    LogoutResp(Seq<u8>),
    FetchUserResp(Seq<u8>),
}

impl View for Payload {
    type V = PayloadView;

    open spec fn view(&self) -> PayloadView {
        match self {
            Payload::HeartBeat(heart_beat) => PayloadView::HeartBeat(*heart_beat),
            Payload::LoginResp(response) => PayloadView::LoginResp(response@),
            Payload::LogoutResp(response) => PayloadView::LogoutResp(response.body@),
            Payload::FetchUserResp(response) => PayloadView::FetchUserResp(response.body@),
        }
    }
}

impl PayloadView {
    /// The field number under which the envelope carries the payload.
    pub open spec fn tag(self) -> u32 {
        match self {
            PayloadView::HeartBeat(_) => HEART_BEAT_TAG,
            PayloadView::LoginResp(_) => LOGIN_RESP_TAG,
            PayloadView::LogoutResp(_) => LOGOUT_RESP_TAG,
            PayloadView::FetchUserResp(_) => FETCH_USER_RESP_TAG,
        }
    }

    /// The bytes of the payload itself.
    pub open spec fn body(self) -> Seq<u8> {
        match self {
            PayloadView::HeartBeat(heart_beat) => heart_beat.encoding(),
            PayloadView::LoginResp(issued) => issued.encoding(),
            PayloadView::LogoutResp(body) => body,
            PayloadView::FetchUserResp(body) => body,
        }
    }
}

/// An envelope from backend to client. A `code` of 0 makes the payload
/// authoritative; any other code makes `error_message` the failure reason
/// and the payload void.
#[derive(Debug, Clone, PartialEq)]
pub struct ServerMessage {
    pub code: i32,
    pub error_message: Option<String>,
    pub payload: Option<Payload>,
}

/// What a [`ServerMessage`] holds.
pub struct Envelope {
    pub code: i32,
    pub error_message: Option<Seq<char>>,
    pub payload: Option<PayloadView>,
}

impl View for ServerMessage {
    type V = Envelope;

    open spec fn view(&self) -> Envelope {
        Envelope {
            code: self.code,
            error_message: match self.error_message {
                Some(text) => Some(text@),
                None => None,
            },
            payload: match self.payload {
                Some(payload) => Some(payload@),
                None => None,
            },
        }
    }
}

/// The payload after a keep-alive field with bytes `body` was read: merged
/// into the keep-alive already there, or into a new one.
pub open spec fn with_heart_beat(payload: Option<PayloadView>, body: Seq<u8>) -> Result<
    Option<PayloadView>,
    DecodeError,
> {
    let base = match payload {
        Some(PayloadView::HeartBeat(heart_beat)) => heart_beat,
        _ => HeartBeat { timestamp: 0 },
    };
    match base.merged(body) {
        Ok(heart_beat) => Ok(Some(PayloadView::HeartBeat(heart_beat))),
        Err(e) => Err(e),
    }
}

/// The payload after a login response field with bytes `body` was read:
/// merged into the login response already there, or into a new one.
pub open spec fn with_login_resp(payload: Option<PayloadView>, body: Seq<u8>) -> Result<
    Option<PayloadView>,
    DecodeError,
> {
    let base = match payload {
        Some(PayloadView::LoginResp(issued)) => issued,
        _ => IssuedCredentials::empty(),
    };
    match base.merged(body) {
        Ok(issued) => Ok(Some(PayloadView::LoginResp(issued))),
        Err(e) => Err(e),
    }
}

impl Envelope {
    /// The envelope before any field was read.
    pub open spec fn empty() -> Envelope {
        Envelope { code: 0, error_message: None, payload: None }
    }

    /// The envelope after one more field was read into it.
    ///
    /// The code and the failure reason take the value of their latest field.
    /// A payload field replaces a payload of another kind; it is merged into
    /// a payload of its own kind, field by field for a keep-alive and a login
    /// response, and by appending the bytes for the bodies that are kept as
    /// they came. Unknown fields are passed over.
    pub open spec fn with_field(self, field: Field) -> Result<Envelope, DecodeError> {
        if field.tag == CODE_TAG {
            match field.value {
                FieldValue::Varint(code) => Ok(Envelope { code: code as i32, ..self }),
                _ => Err(DecodeError::UnexpectedWireType),
            }
        } else if field.tag == ERROR_MESSAGE_TAG {
            match field.value {
                FieldValue::Bytes(text) => match text_of(text) {
                    Ok(reason) => Ok(Envelope { error_message: Some(reason), ..self }),
                    Err(e) => Err(e),
                },
                _ => Err(DecodeError::UnexpectedWireType),
            }
        } else if HEART_BEAT_TAG <= field.tag <= FETCH_USER_RESP_TAG {
            match field.value {
                FieldValue::Bytes(body) => if field.tag == HEART_BEAT_TAG {
                    match with_heart_beat(self.payload, body) {
                        Ok(payload) => Ok(Envelope { payload, ..self }),
                        Err(e) => Err(e),
                    }
                } else if field.tag == LOGIN_RESP_TAG {
                    match with_login_resp(self.payload, body) {
                        Ok(payload) => Ok(Envelope { payload, ..self }),
                        Err(e) => Err(e),
                    }
                } else if field.tag == LOGOUT_RESP_TAG {
                    Ok(
                        Envelope {
                            payload: Some(
                                PayloadView::LogoutResp(
                                    match self.payload {
                                        Some(PayloadView::LogoutResp(old)) => old + body,
                                        _ => body,
                                    },
                                ),
                            ),
                            ..self
                        },
                    )
                } else {
                    Ok(
                        Envelope {
                            payload: Some(
                                PayloadView::FetchUserResp(
                                    match self.payload {
                                        Some(PayloadView::FetchUserResp(old)) => old + body,
                                        _ => body,
                                    },
                                ),
                            ),
                            ..self
                        },
                    )
                },
                _ => Err(DecodeError::UnexpectedWireType),
            }
        } else {
            Ok(self)
        }
    }

    /// The envelope after every field of `bytes` was read into it, in order.
    pub open spec fn merged(self, bytes: Seq<u8>) -> Result<Envelope, DecodeError>
        decreases bytes.len(),
    {
        if bytes.len() == 0 {
            Ok(self)
        } else {
            match first_field(bytes) {
                Err(e) => Err(e),
                Ok(field) => match self.with_field(field) {
                    Err(e) => Err(e),
                    Ok(next) => if 0 < field.len <= bytes.len() {
                        next.merged(bytes.skip(field.len))
                    } else {
                        Err(DecodeError::BufferUnderflow)
                    },
                },
            }
        }
    }
}

impl Envelope {
    /// The code as it is written: not at all when it is 0, else as a
    /// variable-length integer, a negative code extended to 64 bits.
    pub open spec fn code_bytes(self) -> Seq<u8> {
        if self.code != 0 {
            varint_field(CODE_TAG, self.code as i64 as u64)
        } else {
            Seq::empty()
        }
    }

    /// The failure reason as it is written: its UTF-8 bytes, if there is one.
    pub open spec fn reason_bytes(self) -> Seq<u8> {
        match self.error_message {
            Some(text) => delimited_field(ERROR_MESSAGE_TAG, encode_utf8(text)),
            None => Seq::empty(),
        }
    }

    /// The payload as it is written: its bytes under its field number, if
    /// there is one.
    pub open spec fn payload_bytes(self) -> Seq<u8> {
        match self.payload {
            Some(payload) => delimited_field(payload.tag(), payload.body()),
            None => Seq::empty(),
        }
    }

    /// The bytes a backend writes for the envelope: code, failure reason and
    /// payload, in the order of their field numbers.
    pub open spec fn encoding(self) -> Seq<u8> {
        self.code_bytes() + self.reason_bytes() + self.payload_bytes()
    }

    /// Whether the envelope can be written at all: every length fits the
    /// 64 bits it is written in.
    pub open spec fn writable(self) -> bool {
        &&& self.error_message matches Some(text) ==> encode_utf8(text).len() <= u64::MAX
        &&& self.payload matches Some(payload) ==> payload.body().len() <= u64::MAX
        &&& self.payload matches Some(PayloadView::LoginResp(issued)) ==> encode_utf8(
            issued.token,
        ).len() <= u64::MAX
    }
}

/// Reading a field and then the rest is reading the whole.
proof fn lemma_merged_after_field(read: Envelope, bytes: Seq<u8>, field: Field, rest: Seq<u8>)
    requires
        first_field(bytes) == Ok::<Field, DecodeError>(field),
        bytes.skip(field.len) == rest,
    ensures
        read.merged(bytes) == (match read.with_field(field) {
            Ok(next) => next.merged(rest),
            Err(e) => Err(e),
        }),
{
    lemma_field_extent(bytes);
}

/// What a backend writes reads back: the bytes of an envelope decode to that
/// envelope.
pub proof fn lemma_envelope_reads_back(envelope: Envelope)
    requires
        envelope.writable(),
    ensures
        decoded(envelope.encoding()) == Ok::<Envelope, DecodeError>(envelope),
{
    let code = envelope.code_bytes();
    let reason = envelope.reason_bytes();
    let payload = envelope.payload_bytes();
    let after_code = Envelope { code: envelope.code, error_message: None, payload: None };
    let after_reason = Envelope {
        code: envelope.code,
        error_message: envelope.error_message,
        payload: None,
    };
    assert(envelope.encoding() =~= code + (reason + payload));
    // the payload, read into an envelope that has none yet
    assert(after_reason.merged(payload) == Ok::<Envelope, DecodeError>(envelope)) by {
        if let Some(carried) = envelope.payload {
            let body = carried.body();
            lemma_delimited_field_reads_back(carried.tag(), body, Seq::empty());
            let field = Field {
                tag: carried.tag(),
                value: FieldValue::Bytes(body),
                len: payload.len() as int,
            };
            lemma_merged_after_field(after_reason, payload, field, Seq::empty());
            if let PayloadView::HeartBeat(heart_beat) = carried {
                (HeartBeat { timestamp: 0 }).lemma_reads_back(heart_beat);
            }
            if let PayloadView::LoginResp(issued) = carried {
                issued.lemma_reads_back();
            }
        }
    }
    // the failure reason, read into an envelope that has only a code yet
    assert(after_code.merged(reason + payload) == Ok::<Envelope, DecodeError>(envelope)) by {
        if let Some(text) = envelope.error_message {
            let bytes = encode_utf8(text);
            vstd::utf8::encode_utf8_valid_utf8(text);
            vstd::utf8::encode_utf8_decode_utf8(text);
            lemma_delimited_field_reads_back(ERROR_MESSAGE_TAG, bytes, payload);
            let field = Field {
                tag: ERROR_MESSAGE_TAG,
                value: FieldValue::Bytes(bytes),
                len: reason.len() as int,
            };
            lemma_merged_after_field(after_code, reason + payload, field, payload);
        } else {
        }
    }
    // the code, read into the empty envelope
    if envelope.code != 0 {
        let written = envelope.code as i64 as u64;
        let code_value = envelope.code;
        assert((code_value as i64 as u64) as i32 == code_value) by (bit_vector);
        lemma_varint_field_reads_back(CODE_TAG, written, reason + payload);
        let field = Field { tag: CODE_TAG, value: FieldValue::Varint(written), len: code.len() as int };
        lemma_merged_after_field(Envelope::empty(), code + (reason + payload), field, reason + payload);
    } else {
    }
}

/// The envelope that `bytes` encode, or why they encode none.
pub open spec fn decoded(bytes: Seq<u8>) -> Result<Envelope, DecodeError> {
    Envelope::empty().merged(bytes)
}

fn append_bytes(mut head: Vec<u8>, tail: &[u8]) -> (joined: Vec<u8>)
    ensures
        joined@ == head@ + tail@,
{
    let ghost start = head@;
    let mut i: usize = 0;
    while i < tail.len()
        invariant
            i <= tail@.len(),
            head@ == start + tail@.take(i as int),
        decreases tail@.len() - i,
    {
        head.push(tail[i]);
        i += 1;
    }
    head
}

impl ServerMessage {
    /// An envelope with code 0, no failure reason and no payload.
    pub fn new() -> (message: Self)
        ensures
            message@ == Envelope::empty(),
    {
        ServerMessage { code: 0, error_message: None, payload: None }
    }

    /// The failure reason, empty where the envelope carries none.
    pub fn error_message(&self) -> (text: &str)
        ensures
            text@ == (match self.error_message {
                Some(reason) => reason@,
                None => Seq::empty(),
            }),
    {
        match &self.error_message {
            Some(reason) => reason.as_str(),
            None => {
                proof {
                    reveal_strlit("");
                }
                ""
            },
        }
    }

    /// Reads one field into the envelope.
    fn merge_field(self, tag: u32, value: RawValue<'_>) -> (merged: Result<ServerMessage, DecodeError>)
        ensures
            match merged {
                Ok(message) => self@.with_field(
                    (Field { tag, value: value_of(value), len: 0 }),
                ) == Ok::<Envelope, DecodeError>(message@),
                Err(e) => self@.with_field((Field { tag, value: value_of(value), len: 0 }))
                    == Err::<Envelope, DecodeError>(e),
            },
    {
        let ServerMessage { code, error_message, payload } = self;
        if tag == CODE_TAG {
            match value {
                RawValue::Varint(v) => Ok(
                    ServerMessage { code: #[verifier::truncate] (v as i32), error_message, payload },
                ),
                _ => Err(DecodeError::UnexpectedWireType),
            }
        } else if tag == ERROR_MESSAGE_TAG {
            match value {
                RawValue::Bytes(text) => match read_text(text) {
                    Ok(reason) => Ok(ServerMessage { code, error_message: Some(reason), payload }),
                    Err(e) => Err(e),
                },
                _ => Err(DecodeError::UnexpectedWireType),
            }
        } else if HEART_BEAT_TAG <= tag && tag <= FETCH_USER_RESP_TAG {
            match value {
                RawValue::Bytes(body) => {
                    if tag == HEART_BEAT_TAG {
                        let base = match payload {
                            Some(Payload::HeartBeat(heart_beat)) => heart_beat,
                            _ => HeartBeat { timestamp: 0 },
                        };
                        match base.merge(body) {
                            Ok(heart_beat) => Ok(
                                ServerMessage {
                                    code,
                                    error_message,
                                    payload: Some(Payload::HeartBeat(heart_beat)),
                                },
                            ),
                            Err(e) => Err(e),
                        }
                    } else if tag == LOGIN_RESP_TAG {
                        let base = match payload {
                            Some(Payload::LoginResp(issued)) => issued,
                            _ => LoginResp::new(),
                        };
                        match base.merge(body) {
                            Ok(issued) => Ok(
                                ServerMessage {
                                    code,
                                    error_message,
                                    payload: Some(Payload::LoginResp(issued)),
                                },
                            ),
                            Err(e) => Err(e),
                        }
                    } else if tag == LOGOUT_RESP_TAG {
                        let body = match payload {
                            Some(Payload::LogoutResp(old)) => append_bytes(old.body, body),
                            _ => copy_bytes(body),
                        };
                        Ok(
                            ServerMessage {
                                code,
                                error_message,
                                payload: Some(Payload::LogoutResp(LogoutResp { body })),
                            },
                        )
                    } else {
                        let body = match payload {
                            Some(Payload::FetchUserResp(old)) => append_bytes(old.body, body),
                            _ => copy_bytes(body),
                        };
                        Ok(
                            ServerMessage {
                                code,
                                error_message,
                                payload: Some(Payload::FetchUserResp(FetchUserResp { body })),
                            },
                        )
                    }
                },
                _ => Err(DecodeError::UnexpectedWireType),
            }
        } else {
            Ok(ServerMessage { code, error_message, payload })
        }
    }

    /// Reads an envelope from `bytes`.
    ///
    /// Succeeds exactly on the byte sequences that are a run of well-formed
    /// fields in which every known field has its own wire type and the
    /// failure reason is UTF-8; fields may come in any order and unknown
    /// fields are passed over.
    pub fn decode(bytes: &[u8]) -> (envelope: Result<ServerMessage, DecodeError>)
        ensures
            match envelope {
                Ok(message) => decoded(bytes@) == Ok::<Envelope, DecodeError>(message@),
                Err(e) => decoded(bytes@) == Err::<Envelope, DecodeError>(e),
            },
    {
        let mut message = ServerMessage::new();
        let mut rest = bytes;
        while rest.len() > 0
            invariant
                message@.merged(rest@) == decoded(bytes@),
            decreases rest@.len(),
        {
            proof {
                lemma_field_extent(rest@);
            }
            let field = match read_field(rest) {
                Ok(field) => field,
                Err(e) => {
                    return Err(e);
                },
            };
            message = match message.merge_field(field.tag, field.value) {
                Ok(next) => next,
                Err(e) => {
                    return Err(e);
                },
            };
            rest = slice_subrange(rest, field.len, rest.len());
        }
        Ok(message)
    }
}

/// Reads an envelope from `bytes`.
pub fn decode(bytes: &[u8]) -> (envelope: Result<ServerMessage, DecodeError>)
    ensures
        match envelope {
            Ok(message) => decoded(bytes@) == Ok::<Envelope, DecodeError>(message@),
            Err(e) => decoded(bytes@) == Err::<Envelope, DecodeError>(e),
        },
{
    ServerMessage::decode(bytes)
}

} // verus!
