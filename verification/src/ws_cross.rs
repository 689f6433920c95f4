//! The link to the backend as a state machine.
//!
//! The machine owns the decision, the caller owns the socket: every command
//! is answered with what the transport has to do next, and the outcome of a
//! handshake is handed back in. One keep-alive job belongs to the link; each
//! connect command replaces it, whatever becomes of the connect itself.

use crate::client_message::{ClientMessage, Payload};
use crate::context_provider::ContextProvider;
use crate::heartbeat::HeartBeat;
use vstd::prelude::*;

verus! {

/// Seconds between two keep-alive frames.
pub const HEARTBEAT_INTERVAL_SECS: u64 = 5;

/// Why a frame was not sent.
#[derive(Debug, Clone, Copy, PartialEq, Eq, Structural)]
pub enum WebSocketError {
    /// There is no link to send on.
    NotConnected,
}

impl WebSocketError {
    /// The error in words.
    pub fn message(&self) -> (text: String)
        ensures
            text@ == "websocket还未连接"@,
    {
        "websocket还未连接".to_string()
    }
}

/// A message as the transport delivers it.
#[derive(Debug, Clone, PartialEq)]
pub enum WsMessage {
    Binary(Vec<u8>),
    Text(String),
    Unknown(String),
    Ping(Vec<u8>),
    Pong(Vec<u8>),
}

/// An event as the transport delivers it.
#[derive(Debug, Clone, PartialEq)]
pub enum WsEvent {
    Opened,
    Message(WsMessage),
    Error(String),
    Closed,
}

/// A command to the link. A connect command names the endpoint and brings
/// the sink that the transport is to deliver its events to.
#[derive(Debug, Clone, PartialEq)]
pub enum WebSocketCmd<S> {
    Connect(String, S),
    Send(Payload),
    Close,
}

/// Whether there is a link, and to which endpoint.
#[derive(Debug, Clone, PartialEq)]
pub enum WebSocketState {
    Init,
    Connected(String),
}

/// A background job, known by the number it was started under.
#[derive(Debug, Clone, Copy, PartialEq, Eq, Structural)]
pub struct Task {
    pub id: u64,
}

/// The keep-alive job of the link: at most one at any time.
#[derive(Debug, Clone, Copy, PartialEq, Eq, Structural)]
pub struct HeartbeatTask {
    pub task: Option<Task>,
}

impl ContextProvider for HeartbeatTask {
    open spec fn initial() -> Self {
        HeartbeatTask { task: None }
    }

    fn instance() -> (provided: Self) {
        HeartbeatTask { task: None }
    }
}

/// What the transport has to do after a command.
#[derive(Debug, Clone, PartialEq)]
pub enum LinkAction<S> {
    /// Nothing.
    Idle,
    /// Open a link to the endpoint, deliver its events to the sink, and
    /// report back with [`WebSocket::complete_connect`].
    Dial(String, S),
    /// Write the bytes to the link as one binary message.
    Write(Vec<u8>),
    /// Close the link.
    Shutdown,
}

/// A condition worth a line in the log.
#[derive(Debug, Clone, PartialEq)]
pub enum Notice {
    /// A connect command arrived while the link to `old` was up.
    DuplicateConnect { old: String, new: String },
    /// The handshake with the endpoint failed.
    ConnectFailed(String),
    /// A frame was to be sent without a link.
    SendWithoutConnection,
    /// The transport could not write a frame, for the reason given.
    WriteFailed(String),
    /// The link was to be closed without there being one.
    CloseWithoutConnection,
}

/// The answer to one command.
#[derive(Debug, Clone, PartialEq)]
pub struct Step<S> {
    pub action: LinkAction<S>,
    pub notice: Option<Notice>,
    /// The keep-alive job to cancel, if any.
    pub cancelled: Option<Task>,
    /// The keep-alive job to start, if any.
    pub started: Option<Task>,
}

/// What became of a handshake.
#[derive(Debug, Clone, PartialEq)]
pub enum Handshake {
    /// The new link is the link.
    Adopted,
    /// There is no new link.
    Failed(Notice),
    /// A link was up already; the new one has to be closed again.
    Superfluous(Notice),
}

/// The number after `id`, starting over after the last one.
pub open spec fn following(id: u64) -> u64 {
    if id < u64::MAX {
        (id + 1) as u64
    } else {
        0
    }
}

/// The link, its keep-alive job, and the number of the next job.
#[derive(Debug, Clone, PartialEq)]
pub struct WebSocket {
    pub state: WebSocketState,
    pub heartbeat: HeartbeatTask,
    pub next_task: u64,
}

impl WebSocket {
    /// No link and no keep-alive job.
    pub fn new() -> (socket: Self)
        ensures
            socket.state == WebSocketState::Init,
            socket.heartbeat.task is None,
            socket.next_task == 0,
    {
        WebSocket { state: WebSocketState::Init, heartbeat: HeartbeatTask::instance(), next_task: 0 }
    }

    /// Whether the link is up.
    pub fn connected(&self) -> (up: bool)
        ensures
            up == (self.state is Connected),
    {
        match &self.state {
            WebSocketState::Init => false,
            WebSocketState::Connected(_) => true,
        }
    }

    /// The frame that carries `msg`.
    pub open spec fn frame(msg: Payload) -> Seq<u8> {
        (ClientMessage { payload: Some(msg) }).encoding()
    }

    /// Takes a connect command.
    ///
    /// Without a link the transport is told to open one to `url` and to
    /// deliver its events to `sink`; the state changes when the handshake is
    /// reported. With a link up the command is turned down, the link stays
    /// and the sink is dropped. Either way the keep-alive job is replaced:
    /// the current one, if any, is to be cancelled and a new one started.
    pub fn connect<S>(&mut self, url: String, sink: S) -> (step: Step<S>)
        ensures
            final(self).state == old(self).state,
            match old(self).state {
                WebSocketState::Init => step.action == LinkAction::Dial(url, sink) && step.notice
                    is None,
                WebSocketState::Connected(old_url) => step.action == LinkAction::<S>::Idle
                    && step.notice == Some(Notice::DuplicateConnect { old: old_url, new: url }),
            },
            step.cancelled == old(self).heartbeat.task,
            step.started == Some(Task { id: old(self).next_task }),
            final(self).heartbeat.task == step.started,
            final(self).next_task == following(old(self).next_task),
    {
        let cancelled = self.heartbeat.task;
        let started = Task { id: self.next_task };
        self.heartbeat = HeartbeatTask { task: Some(started) };
        self.next_task = if self.next_task < u64::MAX {
            self.next_task + 1
        } else {
            0
        };
        let (action, notice) = match &self.state {
            WebSocketState::Init => (LinkAction::Dial(url, sink), None),
            WebSocketState::Connected(old) => (
                LinkAction::Idle,
                Some(Notice::DuplicateConnect { old: old.clone(), new: url }),
            ),
        };
        Step { action, notice, cancelled, started: Some(started) }
    }

    /// Takes the outcome of the handshake with `url`.
    ///
    /// A link that opened while there was none becomes the link. A failed
    /// handshake leaves the machine without a link; nothing is retried. A
    /// link that opened while another was up is superfluous: the link that
    /// was up stays.
    pub fn complete_connect(&mut self, url: String, opened: bool) -> (outcome: Handshake)
        ensures
            final(self).heartbeat == old(self).heartbeat,
            final(self).next_task == old(self).next_task,
            match old(self).state {
                WebSocketState::Init => if opened {
                    final(self).state == WebSocketState::Connected(url) && outcome
                        == Handshake::Adopted
                } else {
                    final(self).state == WebSocketState::Init && outcome == Handshake::Failed(
                        Notice::ConnectFailed(url),
                    )
                },
                WebSocketState::Connected(old_url) => final(self).state == old(self).state && (
                if opened {
                    outcome == Handshake::Superfluous(
                        Notice::DuplicateConnect { old: old_url, new: url },
                    )
                } else {
                    outcome == Handshake::Failed(Notice::ConnectFailed(url))
                }),
            },
    {
        if !opened {
            return Handshake::Failed(Notice::ConnectFailed(url));
        }
        match &self.state {
            WebSocketState::Init => {
                self.state = WebSocketState::Connected(url);
                Handshake::Adopted
            },
            WebSocketState::Connected(old) => Handshake::Superfluous(
                Notice::DuplicateConnect { old: old.clone(), new: url },
            ),
        }
    }

    /// Encodes `msg` for the link. Without a link the call fails with
    /// `NotConnected` and there is nothing to write.
    pub fn send(&self, msg: Payload) -> (frame: Result<Vec<u8>, WebSocketError>)
        ensures
            match frame {
                Ok(bytes) => self.state is Connected && bytes@ == Self::frame(msg),
                Err(e) => self.state is Init && e == WebSocketError::NotConnected,
            },
    {
        if !self.connected() {
            return Err(WebSocketError::NotConnected);
        }
        let message = ClientMessage { payload: Some(msg) };
        Ok(message.encode_to_vec())
    }

    /// Takes the news that the transport could not write a frame. The failure
    /// is worth a notice and nothing else: the link stays as it is.
    pub fn write_failed(&self, reason: String) -> (notice: Notice)
        ensures
            notice == Notice::WriteFailed(reason),
    {
        Notice::WriteFailed(reason)
    }

    /// Takes a close command. With a link up the transport is told to close
    /// it, the keep-alive job is cancelled and the machine is without a link.
    /// Without a link nothing changes.
    pub fn close<S>(&mut self) -> (step: Step<S>)
        ensures
            final(self).next_task == old(self).next_task,
            final(self).state == WebSocketState::Init,
            step.started is None,
            match old(self).state {
                WebSocketState::Init => {
                    &&& step.action == LinkAction::<S>::Idle
                    &&& step.notice == Some(Notice::CloseWithoutConnection)
                    &&& step.cancelled is None
                    &&& final(self).heartbeat == old(self).heartbeat
                },
                WebSocketState::Connected(_) => {
                    &&& step.action == LinkAction::<S>::Shutdown
                    &&& step.notice is None
                    &&& step.cancelled == old(self).heartbeat.task
                    &&& final(self).heartbeat.task is None
                },
            },
    {
        match &self.state {
            WebSocketState::Init => Step {
                action: LinkAction::Idle,
                notice: Some(Notice::CloseWithoutConnection),
                cancelled: None,
                started: None,
            },
            WebSocketState::Connected(_) => {
                let cancelled = self.heartbeat.task;
                self.heartbeat = HeartbeatTask { task: None };
                self.state = WebSocketState::Init;
                Step { action: LinkAction::Shutdown, notice: None, cancelled, started: None }
            },
        }
    }

    /// Takes the next command from the queue.
    pub fn handle_cmd<S>(&mut self, cmd: WebSocketCmd<S>) -> (step: Step<S>)
        ensures
            match cmd {
                WebSocketCmd::Connect(url, sink) => {
                    &&& final(self).state == old(self).state
                    &&& step.cancelled == old(self).heartbeat.task
                    &&& step.started == Some(Task { id: old(self).next_task })
                    &&& final(self).heartbeat.task == step.started
                    &&& final(self).next_task == following(old(self).next_task)
                    &&& match old(self).state {
                        WebSocketState::Init => step.action == LinkAction::Dial(url, sink)
                            && step.notice is None,
                        WebSocketState::Connected(old_url) => step.action == LinkAction::<S>::Idle
                            && step.notice == Some(
                            Notice::DuplicateConnect { old: old_url, new: url },
                        ),
                    }
                },
                WebSocketCmd::Send(msg) => {
                    &&& *final(self) == *old(self)
                    &&& step.cancelled is None
                    &&& step.started is None
                    &&& match old(self).state {
                        WebSocketState::Init => step.action == LinkAction::<S>::Idle
                            && step.notice == Some(Notice::SendWithoutConnection),
                        WebSocketState::Connected(_) => step.notice is None && (
                        step.action matches LinkAction::Write(bytes) && bytes@ == Self::frame(
                            msg,
                        )),
                    }
                },
                WebSocketCmd::Close => {
                    &&& final(self).next_task == old(self).next_task
                    &&& final(self).state == WebSocketState::Init
                    &&& step.started is None
                    &&& match old(self).state {
                        WebSocketState::Init => {
                            &&& step.action == LinkAction::<S>::Idle
                            &&& step.notice == Some(Notice::CloseWithoutConnection)
                            &&& step.cancelled is None
                            &&& final(self).heartbeat == old(self).heartbeat
                        },
                        WebSocketState::Connected(_) => {
                            &&& step.action == LinkAction::<S>::Shutdown
                            &&& step.notice is None
                            &&& step.cancelled == old(self).heartbeat.task
                            &&& final(self).heartbeat.task is None
                        },
                    }
                },
            },
    {
        match cmd {
            WebSocketCmd::Connect(url, sink) => self.connect(url, sink),
            WebSocketCmd::Send(msg) => match self.send(msg) {
                Ok(bytes) => Step {
                    action: LinkAction::Write(bytes),
                    notice: None,
                    cancelled: None,
                    started: None,
                },
                Err(_) => Step {
                    action: LinkAction::Idle,
                    notice: Some(Notice::SendWithoutConnection),
                    cancelled: None,
                    started: None,
                },
            },
            WebSocketCmd::Close => self.close(),
        }
    }

    /// The command a keep-alive job issues when its interval has passed at
    /// `now_ms`: a keep-alive frame stamped with the time, or nothing if the
    /// job is not the current one.
    pub fn heartbeat_tick<S>(&self, task: Task, now_ms: i64) -> (cmd: Option<WebSocketCmd<S>>)
        ensures
            cmd == (if self.heartbeat.task == Some(task) {
                Some(
                    WebSocketCmd::<S>::Send(
                        Payload::HeartBeat(HeartBeat { timestamp: now_ms as u64 }),
                    ),
                )
            } else {
                None
            }),
    {
        match self.heartbeat.task {
            Some(current) => {
                if current.id == task.id {
                    let heartbeat = HeartBeat { timestamp: #[verifier::truncate] (now_ms as u64) };
                    Some(WebSocketCmd::Send(Payload::HeartBeat(heartbeat)))
                } else {
                    None
                }
            },
            None => None,
        }
    }
}

} // verus!
