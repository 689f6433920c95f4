//! The frames the client sends: one payload per frame, wrapped in the
//! envelope.

use crate::heartbeat::HeartBeat;
use crate::wire::{
    delimited_field, first_field, lemma_delimited_field_reads_back, write_delimited_field,
    DecodeError, Field, FieldValue,
};
use vstd::prelude::*;

verus! {

/// Field number of a keep-alive payload.
pub const HEART_BEAT_TAG: u32 = 1;

/// Field number of a login request.
pub const LOGIN_REQ_TAG: u32 = 2;

/// Field number of a logout request.
pub const LOGOUT_REQ_TAG: u32 = 3;

/// Field number of a request for the user's record.
pub const FETCH_USER_REQ_TAG: u32 = 4;

/// A login request; its body is encoded by the caller.
#[derive(Debug, Clone, PartialEq)]
pub struct LoginReq {
    pub body: Vec<u8>,
}

/// A logout request; its body is encoded by the caller.
#[derive(Debug, Clone, PartialEq)]
pub struct LogoutReq {
    pub body: Vec<u8>,
}

/// A request for the user's record. It carries nothing.
#[derive(Debug, Clone, Copy, PartialEq, Eq, Structural)]
pub struct FetchUserReq {}

/// What a frame can carry.
#[derive(Debug, Clone, PartialEq)]
pub enum Payload {
    HeartBeat(HeartBeat),
    LoginReq(LoginReq),
    LogoutReq(LogoutReq),
    FetchUserReq(FetchUserReq),
}

impl Payload {
    /// The field number under which the envelope carries the payload.
    pub open spec fn tag(self) -> u32 {
        match self {
            Payload::HeartBeat(_) => HEART_BEAT_TAG,
            Payload::LoginReq(_) => LOGIN_REQ_TAG,
            Payload::LogoutReq(_) => LOGOUT_REQ_TAG,
            Payload::FetchUserReq(_) => FETCH_USER_REQ_TAG,
        }
    }

    /// The bytes of the payload itself.
    pub open spec fn body(self) -> Seq<u8> {
        match self {
            Payload::HeartBeat(heart_beat) => heart_beat.encoding(),
            Payload::LoginReq(request) => request.body@,
            Payload::LogoutReq(request) => request.body@,
            Payload::FetchUserReq(_) => Seq::empty(),
        }
    }
}

/// A frame from client to backend.
#[derive(Debug, Clone, PartialEq)]
pub struct ClientMessage {
    pub payload: Option<Payload>,
}

impl ClientMessage {
    /// The bytes of the frame: the payload as one length-delimited field
    /// under its field number, or nothing where there is no payload.
    pub open spec fn encoding(self) -> Seq<u8> {
        match self.payload {
            Some(payload) => delimited_field(payload.tag(), payload.body()),
            None => Seq::empty(),
        }
    }

    /// The bytes of the frame.
    pub fn encode_to_vec(&self) -> (bytes: Vec<u8>)
        ensures
            bytes@ == self.encoding(),
    {
        let mut out: Vec<u8> = Vec::new();
        match &self.payload {
            Some(Payload::HeartBeat(heart_beat)) => {
                let body = heart_beat.encode_to_vec();
                write_delimited_field(HEART_BEAT_TAG, body.as_slice(), &mut out);
            },
            Some(Payload::LoginReq(request)) => {
                write_delimited_field(LOGIN_REQ_TAG, request.body.as_slice(), &mut out);
            },
            Some(Payload::LogoutReq(request)) => {
                write_delimited_field(LOGOUT_REQ_TAG, request.body.as_slice(), &mut out);
            },
            Some(Payload::FetchUserReq(_)) => {
                let body: Vec<u8> = Vec::new();
                write_delimited_field(FETCH_USER_REQ_TAG, body.as_slice(), &mut out);
            },
            None => {},
        }
        out
    }
}

/// A frame with a payload is one field on the wire: the payload's bytes,
/// length-delimited, under the payload's field number, and nothing after it.
pub proof fn lemma_frame_is_one_field(payload: Payload)
    requires
        payload.body().len() <= u64::MAX,
    ensures
        first_field((ClientMessage { payload: Some(payload) }).encoding()) == Ok::<
            Field,
            DecodeError,
        >(
            Field {
                tag: payload.tag(),
                value: FieldValue::Bytes(payload.body()),
                len: (ClientMessage { payload: Some(payload) }).encoding().len() as int,
            },
        ),
{
    let bytes = delimited_field(payload.tag(), payload.body());
    lemma_delimited_field_reads_back(payload.tag(), payload.body(), Seq::empty());
}

/// The bytes of a frame that carries `payload`.
pub fn encode(payload: Payload) -> (bytes: Vec<u8>)
    ensures
        bytes@ == (ClientMessage { payload: Some(payload) }).encoding(),
{
    let message = ClientMessage { payload: Some(payload) };
    message.encode_to_vec()
}

} // verus!
