use crate::protocol::{HelloReply, HelloReplyError, InputEvent};
use vstd::prelude::*;

verus! {

/// Seconds between two probes of the client connection while idle.
pub const PROBE_INTERVAL_SECS: u64 = 1;

/// Where a server session stands; a copy of it is shared with the registry.
#[derive(Clone, Copy, Debug, PartialEq, Eq, Structural)]
pub enum ServerState {
    Handshaking,
    Idle,
    RelayingEvent { event: InputEvent },
}

/// A session is connected once it is past its handshake.
pub open spec fn connected(state: ServerState) -> bool {
    !(state is Handshaking)
}

/// Whether a session in `state` takes events from the registry.
pub fn is_connected(state: ServerState) -> (r: bool)
    ensures
        r == connected(state),
{
    match state {
        ServerState::Handshaking => false,
        ServerState::Idle => true,
        ServerState::RelayingEvent { .. } => true,
    }
}

/// Why a server session ended.
#[derive(Clone, Copy, Debug, PartialEq, Eq, Structural)]
pub enum ServerEnd {
    HandshakeFailed,
    VersionMismatch,
    ClientDisconnected,
    ChannelClosed,
    RelayFailed,
}

/// What happened to a server session since its last step, besides a `Hello`.
#[derive(Clone, Copy, Debug, PartialEq, Eq, Structural)]
pub enum ServerInput {
    /// Receiving the hello, replying to it or the secure upgrade failed.
    HandshakeFailed,
    /// The secure upgrade completed.
    Upgraded,
    /// The registry handed over an event.
    EventArrived(InputEvent),
    /// The registry's channel is closed.
    ChannelClosed,
    /// The liveness probe fired and found the connection closed or open.
    Probed { closed: bool },
    /// The relayed event was sent to the client.
    Relayed,
    /// The relayed event could not be sent.
    RelayFailed,
}

/// What the driver of a server session does next.
#[derive(Clone, Copy, Debug, PartialEq, Eq, Structural)]
pub enum ServerAction {
    /// Nothing to do but wait for the next input.
    Wait,
    /// Send `reply` in the clear, then upgrade to the secure transport and report
    /// `Upgraded` or `HandshakeFailed`.
    ReplyAndUpgrade { reply: HelloReply },
    /// Send `reply` in the clear, then close the session without upgrading.
    ReplyAndEnd { reply: HelloReply },
    /// Send `event` to the client and report `Relayed` or `RelayFailed`.
    Relay { event: InputEvent },
    /// Close the session for the given reason.
    End(ServerEnd),
}

/// A server session: its state and whether it has ended.
#[derive(Clone, Copy, Debug)]
pub struct ServerSession {
    pub state: ServerState,
    pub ended: bool,
}

impl ServerSession {
    pub open spec fn with_state(self, state: ServerState) -> ServerSession {
        ServerSession { state, ..self }
    }

    pub open spec fn closed(self) -> ServerSession {
        ServerSession { ended: true, ..self }
    }

    /// The session after a `Hello` that carried `client_version`, and the action next.
    pub open spec fn after_hello(self, client_version: Seq<char>, server_version: Seq<char>) -> (
        ServerSession,
        ServerAction,
    ) {
        if self.ended || !(self.state is Handshaking) {
            (self, ServerAction::Wait)
        } else if client_version == server_version {
            (self, ServerAction::ReplyAndUpgrade { reply: HelloReply::Accepted })
        } else {
            (
                self.closed(),
                ServerAction::ReplyAndEnd {
                    reply: HelloReply::Rejected(HelloReplyError::VersionMismatch),
                },
            )
        }
    }

    /// The transition relation of a server session for every input but a `Hello`.
    pub open spec fn next(self, input: ServerInput) -> (ServerSession, ServerAction) {
        if self.ended {
            (self, ServerAction::Wait)
        } else {
            match (self.state, input) {
                (ServerState::Handshaking, ServerInput::HandshakeFailed) => (
                    self.closed(),
                    ServerAction::End(ServerEnd::HandshakeFailed),
                ),
                (ServerState::Handshaking, ServerInput::Upgraded) => (
                    self.with_state(ServerState::Idle),
                    ServerAction::Wait,
                ),
                (ServerState::Idle, ServerInput::EventArrived(event)) => (
                    self.with_state(ServerState::RelayingEvent { event }),
                    ServerAction::Relay { event },
                ),
                (ServerState::Idle, ServerInput::ChannelClosed) => (
                    self.closed(),
                    ServerAction::End(ServerEnd::ChannelClosed),
                ),
                (ServerState::Idle, ServerInput::Probed { closed }) => {
                    if closed {
                        (self.closed(), ServerAction::End(ServerEnd::ClientDisconnected))
                    } else {
                        (self, ServerAction::Wait)
                    }
                },
                (ServerState::RelayingEvent { .. }, ServerInput::Relayed) => (
                    self.with_state(ServerState::Idle),
                    ServerAction::Wait,
                ),
                (ServerState::RelayingEvent { .. }, ServerInput::RelayFailed) => (
                    self.closed(),
                    ServerAction::End(ServerEnd::RelayFailed),
                ),
                _ => (self, ServerAction::Wait),
            }
        }
    }

    /// A fresh session, waiting for the client's `Hello`.
    pub fn new() -> (r: ServerSession)
        ensures
            r.state == ServerState::Handshaking,
            !r.ended,
    {
        ServerSession { state: ServerState::Handshaking, ended: false }
    }

    /// Takes the client's `Hello`: the versions must be equal as strings.
    pub fn on_hello(&mut self, client_version: &String, server_version: &String) -> (r:
        ServerAction)
        ensures
            (*final(self), r) == old(self).after_hello(client_version@, server_version@),
    {
        if self.ended {
            return ServerAction::Wait;
        }
        match self.state {
            ServerState::Handshaking => {
                if client_version.eq(server_version) {
                    ServerAction::ReplyAndUpgrade { reply: HelloReply::Accepted }
                } else {
                    self.ended = true;
                    ServerAction::ReplyAndEnd {
                        reply: HelloReply::Rejected(HelloReplyError::VersionMismatch),
                    }
                }
            },
            _ => ServerAction::Wait,
        }
    }

    /// Takes one input and returns the action to perform next.
    pub fn step(&mut self, input: ServerInput) -> (r: ServerAction)
        ensures
            (*final(self), r) == old(self).next(input),
    {
        if self.ended {
            return ServerAction::Wait;
        }
        match (self.state, input) {
            (ServerState::Handshaking, ServerInput::HandshakeFailed) => {
                self.ended = true;
                ServerAction::End(ServerEnd::HandshakeFailed)
            },
            (ServerState::Handshaking, ServerInput::Upgraded) => {
                self.state = ServerState::Idle;
                ServerAction::Wait
            },
            (ServerState::Idle, ServerInput::EventArrived(event)) => {
                self.state = ServerState::RelayingEvent { event };
                ServerAction::Relay { event }
            },
            (ServerState::Idle, ServerInput::ChannelClosed) => {
                self.ended = true;
                ServerAction::End(ServerEnd::ChannelClosed)
            },
            (ServerState::Idle, ServerInput::Probed { closed }) => {
                if closed {
                    self.ended = true;
                    ServerAction::End(ServerEnd::ClientDisconnected)
                } else {
                    ServerAction::Wait
                }
            },
            (ServerState::RelayingEvent { .. }, ServerInput::Relayed) => {
                self.state = ServerState::Idle;
                ServerAction::Wait
            },
            (ServerState::RelayingEvent { .. }, ServerInput::RelayFailed) => {
                self.ended = true;
                ServerAction::End(ServerEnd::RelayFailed)
            },
            _ => ServerAction::Wait,
        }
    }
}

/// A `Hello` whose version differs from the server's is answered with
/// `VersionMismatch` and ends the session before any upgrade; an ended session takes
/// no further input, so it never reaches the secure transport and relays no event.
pub proof fn lemma_version_mismatch(
    s: ServerSession,
    client_version: Seq<char>,
    server_version: Seq<char>,
    later: ServerInput,
)
    requires
        !s.ended,
        s.state is Handshaking,
        client_version != server_version,
    ensures
        ({
            let (t, a) = s.after_hello(client_version, server_version);
            &&& a == ServerAction::ReplyAndEnd {
                reply: HelloReply::Rejected(HelloReplyError::VersionMismatch),
            }
            &&& t.ended
            &&& t.state is Handshaking
            &&& t.next(later) == (t, ServerAction::Wait)
        }),
{
}

/// While idle, a probe that finds the connection closed ends the session; one that
/// finds it open leaves the session idle.
pub proof fn lemma_probe_detects_disconnect(s: ServerSession, closed: bool)
    requires
        !s.ended,
        s.state is Idle,
    ensures
        closed ==> s.next(ServerInput::Probed { closed }) == (
            s.closed(),
            ServerAction::End(ServerEnd::ClientDisconnected),
        ),
        !closed ==> s.next(ServerInput::Probed { closed }) == (s, ServerAction::Wait),
{
}

} // verus!
