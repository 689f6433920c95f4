//! What arrives over the link: raw transport events are classified, binary
//! messages are decoded as envelopes, and envelopes are routed by payload.
//!
//! Nothing that arrives changes the link: a malformed message is dropped,
//! errors and closures are observed, and nobody reconnects.

use crate::auth_state::{AuthInfo, AuthService};
use crate::client_message::Payload;
use crate::server_message::{self, decoded, Envelope, LogoutResp, ServerMessage};
use crate::service_provider::Service;
use crate::user_service::UserService;
use crate::wire::DecodeError;
use crate::ws_cross::{
    following, LinkAction, Notice, Step, Task, WebSocket, WebSocketError, WebSocketState, WsEvent,
    WsMessage,
};
use vstd::prelude::*;

verus! {

/// A transport event after classification.
#[derive(Debug, Clone, PartialEq)]
pub enum ParsedWsEvent {
    Opened,
    ServerMessage(ServerMessage),
    Text(String),
    Ping(Vec<u8>),
    Pong(Vec<u8>),
    WebSocketError(String),
    Unknown(String),
    Closed,
}

impl ParsedWsEvent {
    /// Classifies a transport event. Only a binary message is decoded as an
    /// envelope, and only that can fail; text, ping, pong and unrecognized
    /// messages are taken as they are.
    pub fn try_from(value: WsEvent) -> (parsed: Result<Self, DecodeError>)
        ensures
            match value {
                WsEvent::Opened => parsed == Ok::<Self, DecodeError>(ParsedWsEvent::Opened),
                WsEvent::Message(WsMessage::Binary(items)) => match decoded(items@) {
                    Ok(envelope) => parsed matches Ok(ParsedWsEvent::ServerMessage(message))
                        && message@ == envelope,
                    Err(e) => parsed == Err::<Self, DecodeError>(e),
                },
                WsEvent::Message(WsMessage::Text(text)) => parsed == Ok::<Self, DecodeError>(
                    ParsedWsEvent::Text(text),
                ),
                WsEvent::Message(WsMessage::Unknown(unknown)) => parsed == Ok::<Self, DecodeError>(
                    ParsedWsEvent::Unknown(unknown),
                ),
                WsEvent::Message(WsMessage::Ping(items)) => parsed == Ok::<Self, DecodeError>(
                    ParsedWsEvent::Ping(items),
                ),
                WsEvent::Message(WsMessage::Pong(items)) => parsed == Ok::<Self, DecodeError>(
                    ParsedWsEvent::Pong(items),
                ),
                WsEvent::Error(e) => parsed == Ok::<Self, DecodeError>(
                    ParsedWsEvent::WebSocketError(e),
                ),
                WsEvent::Closed => parsed == Ok::<Self, DecodeError>(ParsedWsEvent::Closed),
            },
    {
        match value {
            WsEvent::Opened => Ok(ParsedWsEvent::Opened),
            WsEvent::Message(ws_message) => match ws_message {
                WsMessage::Binary(items) => {
                    match ServerMessage::decode(items.as_slice()) {
                        Ok(server_message) => Ok(ParsedWsEvent::ServerMessage(server_message)),
                        Err(e) => Err(e),
                    }
                },
                WsMessage::Text(text) => Ok(ParsedWsEvent::Text(text)),
                WsMessage::Unknown(unknown) => Ok(ParsedWsEvent::Unknown(unknown)),
                WsMessage::Ping(items) => Ok(ParsedWsEvent::Ping(items)),
                WsMessage::Pong(items) => Ok(ParsedWsEvent::Pong(items)),
            },
            WsEvent::Error(e) => Ok(ParsedWsEvent::WebSocketError(e)),
            WsEvent::Closed => Ok(ParsedWsEvent::Closed),
        }
    }
}

/// The services an envelope may be routed to.
#[derive(Debug, Clone, PartialEq)]
pub struct ServerMessageHandlingContext {
    pub auth_service: AuthService,
    pub user_service: UserService,
}

impl ServerMessageHandlingContext {
    /// The context over the services that were provided: envelopes are
    /// routed to these very services, not to new ones.
    pub fn collect(auth_service: AuthService, user_service: UserService) -> (context: Self)
        ensures
            context.auth_service == auth_service,
            context.user_service == user_service,
    {
        ServerMessageHandlingContext { auth_service, user_service }
    }
}

/// What was done with an envelope.
#[derive(Debug, Clone, PartialEq)]
pub enum Routed {
    /// The backend reported a failure: nothing but the code and the reason
    /// was looked at.
    ApplicationError { code: i32, message: Option<String> },
    /// A keep-alive with the backend's timestamp.
    HeartBeat(u64),
    /// A login response; the user is signed in with the credentials it
    /// issued.
    LoginResp,
    /// A logout response; the user has been signed out.
    LogoutResp(LogoutResp),
    /// The user's record; the user service holds it now.
    FetchUserResp,
    /// An envelope with code 0 and no payload.
    Empty,
}

/// What was observed of a transport event.
#[derive(Debug, Clone, PartialEq)]
pub enum Observed {
    Opened,
    ServerMessage(Routed),
    Text(String),
    Ping,
    Pong,
    WebSocketError(String),
    Unknown(String),
    Closed,
}

/// The processing of everything that arrives over the link.
#[derive(Debug, Clone, PartialEq)]
pub struct NetworkService {
    /// The job that processes incoming events, once connected.
    pub task: Option<Task>,
    /// The number of the next job.
    pub next_task: u64,
}

impl Service for NetworkService {
    open spec fn initial() -> Self {
        NetworkService { task: None, next_task: 0 }
    }

    fn instance() -> (service: Self) {
        NetworkService { task: None, next_task: 0 }
    }
}

/// What to do to connect: the processing job to cancel and the one to start,
/// and what the link answers to the connect command.
#[derive(Debug, Clone, PartialEq)]
pub struct Connecting<S> {
    pub cancelled: Option<Task>,
    pub started: Task,
    pub step: Step<S>,
}

impl NetworkService {
    /// Connects to `url`: the job that processes incoming events is replaced
    /// by a new one, then the link takes a connect command with `sink`.
    pub fn connect<S>(&mut self, socket: &mut WebSocket, url: String, sink: S) -> (connecting:
        Connecting<S>)
        ensures
            connecting.cancelled == old(self).task,
            connecting.started == (Task { id: old(self).next_task }),
            final(self).task == Some(connecting.started),
            final(self).next_task == following(old(self).next_task),
            final(socket).state == old(socket).state,
            connecting.step.cancelled == old(socket).heartbeat.task,
            connecting.step.started == final(socket).heartbeat.task,
            connecting.step.started == Some(Task { id: old(socket).next_task }),
            match old(socket).state {
                WebSocketState::Init => connecting.step.action
                    == LinkAction::Dial(url, sink) && connecting.step.notice
                    is None,
                WebSocketState::Connected(old_url) => connecting.step.action
                    == LinkAction::<S>::Idle && connecting.step.notice == Some(
                    Notice::DuplicateConnect { old: old_url, new: url },
                ),
            },
    {
        let started = Task { id: self.next_task };
        let cancelled = self.task;
        self.task = Some(started);
        self.next_task = if self.next_task < u64::MAX {
            self.next_task + 1
        } else {
            0
        };
        let step = socket.connect(url, sink);
        Connecting { cancelled, started, step }
    }

    /// Encodes `payload` for the link; `NotConnected` where there is none.
    pub fn send(&self, socket: &WebSocket, payload: Payload) -> (frame: Result<Vec<u8>, WebSocketError>)
        ensures
            match frame {
                Ok(bytes) => socket.state is Connected && bytes@ == WebSocket::frame(payload),
                Err(e) => socket.state is Init && e == WebSocketError::NotConnected,
            },
    {
        socket.send(payload)
    }

    /// What is observed of a transport event that carries no envelope; a
    /// binary message carries one and goes by [`Self::routes`].
    pub open spec fn observation(event: WsEvent) -> Option<Observed> {
        match event {
            WsEvent::Opened => Some(Observed::Opened),
            WsEvent::Message(WsMessage::Text(text)) => Some(Observed::Text(text)),
            WsEvent::Message(WsMessage::Unknown(unknown)) => Some(Observed::Unknown(unknown)),
            WsEvent::Message(WsMessage::Ping(_)) => Some(Observed::Ping),
            WsEvent::Message(WsMessage::Pong(_)) => Some(Observed::Pong),
            WsEvent::Message(WsMessage::Binary(_)) => None,
            WsEvent::Error(e) => Some(Observed::WebSocketError(e)),
            WsEvent::Closed => Some(Observed::Closed),
        }
    }

    /// Takes a raw transport event: classifies it and, where that succeeds,
    /// handles it. A binary message that is no envelope is dropped with the
    /// reason; the context is as it was.
    pub fn on_event(ctx: &mut ServerMessageHandlingContext, event: WsEvent) -> (observed: Result<
        Observed,
        DecodeError,
    >)
        ensures
            match event {
                WsEvent::Message(WsMessage::Binary(items)) => match decoded(items@) {
                    Ok(envelope) => observed matches Ok(Observed::ServerMessage(routed))
                        && Self::routes(*old(ctx), envelope, *final(ctx), routed),
                    Err(e) => observed == Err::<Observed, DecodeError>(e) && *final(ctx) == *old(
                        ctx,
                    ),
                },
                other => (observed matches Ok(seen) && Self::observation(other) == Some(seen))
                    && *final(ctx) == *old(ctx),
            },
    {
        match ParsedWsEvent::try_from(event) {
            Ok(parsed) => Ok(Self::handle_ws_event(ctx, parsed)),
            Err(e) => Err(e),
        }
    }

    /// Handles a classified event. Only an envelope is acted on; every other
    /// event is observed and leaves the context as it was.
    pub fn handle_ws_event(ctx: &mut ServerMessageHandlingContext, event: ParsedWsEvent) -> (observed:
        Observed)
        ensures
            match event {
                ParsedWsEvent::Opened => observed == Observed::Opened && *final(ctx) == *old(ctx),
                ParsedWsEvent::ServerMessage(message) => observed matches Observed::ServerMessage(
                    routed,
                ) && Self::routes(*old(ctx), message@, *final(ctx), routed),
                ParsedWsEvent::Text(text) => observed == Observed::Text(text) && *final(ctx) == *old(ctx),
                ParsedWsEvent::Ping(_) => observed == Observed::Ping && *final(ctx) == *old(ctx),
                ParsedWsEvent::Pong(_) => observed == Observed::Pong && *final(ctx) == *old(ctx),
                ParsedWsEvent::WebSocketError(e) => observed == Observed::WebSocketError(e)
                    && *final(ctx) == *old(ctx),
                ParsedWsEvent::Unknown(unknown) => observed == Observed::Unknown(unknown) && *final(ctx) == *old(ctx),
                ParsedWsEvent::Closed => observed == Observed::Closed && *final(ctx) == *old(ctx),
            },
    {
        match event {
            ParsedWsEvent::Opened => Observed::Opened,
            ParsedWsEvent::ServerMessage(server_message) => Observed::ServerMessage(
                Self::handle_server_message(ctx, server_message),
            ),
            ParsedWsEvent::Text(text) => Observed::Text(text),
            ParsedWsEvent::Ping(_) => Observed::Ping,
            ParsedWsEvent::Pong(_) => Observed::Pong,
            ParsedWsEvent::WebSocketError(e) => Observed::WebSocketError(e),
            ParsedWsEvent::Unknown(unknown) => Observed::Unknown(unknown),
            ParsedWsEvent::Closed => Observed::Closed,
        }
    }

    /// How an envelope is routed: what is reported of it and what it does to
    /// the services.
    ///
    /// A code other than 0 is an application failure: code and reason are
    /// reported and the payload is not looked at. With code 0 the payload
    /// decides: a keep-alive is reported, a login response signs the user in
    /// with the credentials it issued, a logout response signs the user out,
    /// the user's record goes to the user service, and an envelope without a
    /// payload is reported as empty.
    pub open spec fn routes(
        before: ServerMessageHandlingContext,
        envelope: Envelope,
        after: ServerMessageHandlingContext,
        routed: Routed,
    ) -> bool {
        if envelope.code != 0 {
            &&& after == before
            &&& routed matches Routed::ApplicationError { code, message }
            &&& code == envelope.code
            &&& match (message, envelope.error_message) {
                (Some(text), Some(reason)) => text@ == reason,
                (None, None) => true,
                _ => false,
            }
        } else {
            match envelope.payload {
                Some(server_message::PayloadView::HeartBeat(heart_beat)) => after == before
                    && routed == Routed::HeartBeat(heart_beat.timestamp),
                Some(server_message::PayloadView::LoginResp(issued)) => {
                    &&& after.user_service == before.user_service
                    &&& after.auth_service.inner() matches Some(info) && info.token@
                        == issued.token && info.until_ms == issued.expires_at_ms
                    &&& routed == Routed::LoginResp
                },
                Some(server_message::PayloadView::LogoutResp(body)) => {
                    &&& after.user_service == before.user_service
                    &&& after.auth_service.inner() is None
                    &&& routed matches Routed::LogoutResp(response) && response.body@ == body
                },
                Some(server_message::PayloadView::FetchUserResp(body)) => {
                    &&& after.auth_service == before.auth_service
                    &&& after.user_service.user_info matches Some(info) && info.record@ == body
                    &&& routed == Routed::FetchUserResp
                },
                None => after == before && routed == Routed::Empty,
            }
        }
    }

    /// Routes an envelope; see [`Self::routes`].
    pub fn handle_server_message(
        context: &mut ServerMessageHandlingContext,
        server_message: ServerMessage,
    ) -> (routed: Routed)
        ensures
            Self::routes(*old(context), server_message@, *final(context), routed),
    {
        if server_message.code != 0 {
            return Routed::ApplicationError {
                code: server_message.code,
                message: server_message.error_message,
            };
        }
        match server_message.payload {
            Some(payload) => match payload {
                server_message::Payload::HeartBeat(heart_beat) => Routed::HeartBeat(
                    heart_beat.timestamp,
                ),
                server_message::Payload::LoginResp(login_resp) => {
                    context.auth_service.sign_in(
                        AuthInfo { token: login_resp.token, until_ms: login_resp.expires_at_ms },
                    );
                    Routed::LoginResp
                },
                server_message::Payload::LogoutResp(logout_resp) => {
                    context.auth_service.clear();
                    Routed::LogoutResp(logout_resp)
                },
                server_message::Payload::FetchUserResp(fetch_user_resp) => {
                    context.user_service.on_fetch_user_resp(fetch_user_resp);
                    Routed::FetchUserResp
                },
            },
            None => Routed::Empty,
        }
    }
}

} // verus!
