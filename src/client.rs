use crate::protocol::{InputEvent, ServerMessage};
use vstd::prelude::*;

verus! {

/// Seconds between two ticks of the client's ping ticker.
pub const PING_INTERVAL_SECS: u64 = 5;

/// Where a client session stands.
#[derive(Clone, Copy, Debug, PartialEq, Eq, Structural)]
pub enum SessionState {
    Handshaking,
    Idle,
    EventRelayed { event: InputEvent },
}

/// Why a client session ended.
#[derive(Clone, Copy, Debug, PartialEq, Eq, Structural)]
pub enum ClientEnd {
    HandshakeFailed,
    PingSendFailed,
    HeartbeatTimeout,
    PongMismatch,
    ForwardChannelClosed,
    CounterExhausted,
}

/// What happened to a client session since its last step.
#[derive(Clone, Copy, Debug, PartialEq, Eq, Structural)]
pub enum ClientInput {
    /// The hello exchange and the secure upgrade completed.
    Upgraded,
    /// The hello exchange or the secure upgrade failed.
    UpgradeFailed,
    /// The ping ticker fired.
    Tick,
    /// The ping asked for by the last step was sent.
    PingSent,
    /// The ping asked for by the last step could not be sent.
    PingFailed,
    /// A message arrived from the server.
    Received(ServerMessage),
    /// The relayed event was handed to the emulation side.
    Forwarded,
    /// The emulation side's channel is closed.
    ForwardFailed,
}

/// What the driver of a client session does next.
#[derive(Clone, Copy, Debug, PartialEq, Eq, Structural)]
pub enum ClientAction {
    /// Nothing to do but wait for the next input.
    Wait,
    /// Send `Ping { counter }` and report `PingSent` or `PingFailed`.
    SendPing { counter: u64 },
    /// Restart the ping ticker's phase.
    ResetTicker,
    /// Hand `event` to the emulation side and report `Forwarded` or `ForwardFailed`.
    Forward { event: InputEvent },
    /// Close the session for the given reason.
    End(ClientEnd),
}

/// A client session: its state, its ping counter and whether it has ended.
#[derive(Clone, Copy, Debug)]
pub struct ClientSession {
    pub state: SessionState,
    pub ping_counter: u64,
    pub ended: bool,
}

pub open spec fn is_odd(n: u64) -> bool {
    n % 2 == 1
}

/// The input for a `Pong` that carries `counter`.
pub open spec fn pong_input(counter: u64) -> ClientInput {
    ClientInput::Received(ServerMessage::Pong { counter })
}

impl ClientSession {
    /// The ping counter starts at one and never reaches zero.
    pub open spec fn wf(self) -> bool {
        self.ping_counter >= 1
    }

    /// A ping has been sent and its pong has not come back yet.
    pub open spec fn awaiting_pong(self) -> bool {
        !is_odd(self.ping_counter)
    }

    pub open spec fn with_state(self, state: SessionState) -> ClientSession {
        ClientSession { state, ..self }
    }

    pub open spec fn with_counter(self, ping_counter: u64) -> ClientSession {
        ClientSession { ping_counter, ..self }
    }

    pub open spec fn closed(self) -> ClientSession {
        ClientSession { ended: true, ..self }
    }

    /// The transition relation of a client session: the session after `input`, and
    /// the action that its driver performs next.
    pub open spec fn next(self, input: ClientInput) -> (ClientSession, ClientAction) {
        if self.ended {
            (self, ClientAction::Wait)
        } else {
            match (self.state, input) {
                (SessionState::Handshaking, ClientInput::Upgraded) => (
                    self.with_state(SessionState::Idle),
                    ClientAction::Wait,
                ),
                (SessionState::Handshaking, ClientInput::UpgradeFailed) => (
                    self.closed(),
                    ClientAction::End(ClientEnd::HandshakeFailed),
                ),
                (SessionState::Idle, ClientInput::Tick) => {
                    if self.awaiting_pong() {
                        (self.closed(), ClientAction::End(ClientEnd::HeartbeatTimeout))
                    } else if self.ping_counter == u64::MAX {
                        (self.closed(), ClientAction::End(ClientEnd::CounterExhausted))
                    } else {
                        (self, ClientAction::SendPing { counter: self.ping_counter })
                    }
                },
                (SessionState::Idle, ClientInput::PingSent) => {
                    if is_odd(self.ping_counter) && self.ping_counter < u64::MAX {
                        (self.with_counter((self.ping_counter + 1) as u64), ClientAction::Wait)
                    } else {
                        (self, ClientAction::Wait)
                    }
                },
                (SessionState::Idle, ClientInput::PingFailed) => (
                    self.closed(),
                    ClientAction::End(ClientEnd::PingSendFailed),
                ),
                (SessionState::Idle, ClientInput::Received(msg)) => match msg {
                    ServerMessage::Event(event) => (
                        self.with_state(SessionState::EventRelayed { event }),
                        ClientAction::Forward { event },
                    ),
                    ServerMessage::Pong { counter } => {
                        if self.awaiting_pong() && counter == self.ping_counter {
                            (
                                self.with_counter((self.ping_counter + 1) as u64),
                                ClientAction::ResetTicker,
                            )
                        } else {
                            (self.closed(), ClientAction::End(ClientEnd::PongMismatch))
                        }
                    },
                    ServerMessage::HelloReply(_) => (self, ClientAction::Wait),
                },
                (SessionState::EventRelayed { .. }, ClientInput::Forwarded) => (
                    self.with_state(SessionState::Idle),
                    ClientAction::Wait,
                ),
                (SessionState::EventRelayed { .. }, ClientInput::ForwardFailed) => (
                    self.closed(),
                    ClientAction::End(ClientEnd::ForwardChannelClosed),
                ),
                _ => (self, ClientAction::Wait),
            }
        }
    }

    /// A fresh session: handshaking, ready to send its first ping.
    pub fn new() -> (r: ClientSession)
        ensures
            r.wf(),
            r.state == SessionState::Handshaking,
            r.ping_counter == 1,
            !r.ended,
    {
        ClientSession { state: SessionState::Handshaking, ping_counter: 1, ended: false }
    }

    /// Takes one input and returns the action to perform next.
    pub fn step(&mut self, input: ClientInput) -> (r: ClientAction)
        requires
            old(self).wf(),
        ensures
            (*final(self), r) == old(self).next(input),
            final(self).wf(),
    {
        if self.ended {
            return ClientAction::Wait;
        }
        match (self.state, input) {
            (SessionState::Handshaking, ClientInput::Upgraded) => {
                self.state = SessionState::Idle;
                ClientAction::Wait
            },
            (SessionState::Handshaking, ClientInput::UpgradeFailed) => {
                self.ended = true;
                ClientAction::End(ClientEnd::HandshakeFailed)
            },
            (SessionState::Idle, ClientInput::Tick) => {
                if self.ping_counter % 2 == 0 {
                    self.ended = true;
                    ClientAction::End(ClientEnd::HeartbeatTimeout)
                } else if self.ping_counter == u64::MAX {
                    self.ended = true;
                    ClientAction::End(ClientEnd::CounterExhausted)
                } else {
                    ClientAction::SendPing { counter: self.ping_counter }
                }
            },
            (SessionState::Idle, ClientInput::PingSent) => {
                if self.ping_counter % 2 == 1 && self.ping_counter < u64::MAX {
                    self.ping_counter = self.ping_counter + 1;
                }
                ClientAction::Wait
            },
            (SessionState::Idle, ClientInput::PingFailed) => {
                self.ended = true;
                ClientAction::End(ClientEnd::PingSendFailed)
            },
            (SessionState::Idle, ClientInput::Received(msg)) => match msg {
                ServerMessage::Event(event) => {
                    self.state = SessionState::EventRelayed { event };
                    ClientAction::Forward { event }
                },
                ServerMessage::Pong { counter } => {
                    if self.ping_counter % 2 == 0 && counter == self.ping_counter {
                        self.ping_counter = self.ping_counter + 1;
                        ClientAction::ResetTicker
                    } else {
                        self.ended = true;
                        ClientAction::End(ClientEnd::PongMismatch)
                    }
                },
                ServerMessage::HelloReply(_) => ClientAction::Wait,
            },
            (SessionState::EventRelayed { .. }, ClientInput::Forwarded) => {
                self.state = SessionState::Idle;
                ClientAction::Wait
            },
            (SessionState::EventRelayed { .. }, ClientInput::ForwardFailed) => {
                self.ended = true;
                ClientAction::End(ClientEnd::ForwardChannelClosed)
            },
            _ => ClientAction::Wait,
        }
    }
}

/// The ping counter moves by one at a time and flips its parity when it moves: a ping
/// goes out only while the counter is odd and makes it even; only a pong that carries
/// the even counter of the outstanding ping makes it odd again; any other pong ends
/// the session.
pub proof fn lemma_ping_counter_alternates(s: ClientSession, input: ClientInput)
    requires
        s.wf(),
    ensures
        ({
            let (t, a) = s.next(input);
            &&& t.ping_counter == s.ping_counter || t.ping_counter == s.ping_counter + 1
            &&& t.ping_counter != s.ping_counter ==> is_odd(t.ping_counter) != is_odd(
                s.ping_counter,
            )
            &&& a is SendPing ==> a->counter == s.ping_counter && is_odd(s.ping_counter)
            &&& (!s.ended && s.state is Idle && input == ClientInput::PingSent && is_odd(
                s.ping_counter,
            ) && s.ping_counter < u64::MAX) ==> t.ping_counter == s.ping_counter + 1
            &&& (!s.ended && s.state is Idle && s.awaiting_pong() && input
                == ClientInput::Received(ServerMessage::Pong { counter: s.ping_counter }))
                ==> t.ping_counter == s.ping_counter + 1 && !t.ended
        }),
        forall|c: u64|
            (!s.ended && s.state is Idle && !(s.awaiting_pong() && c == s.ping_counter)) ==> #[trigger] s.next(pong_input(c))
                == (s.closed(), ClientAction::End(ClientEnd::PongMismatch)),
{
}

/// One missed round trip is enough and is needed to time a session out: a tick ends
/// the session by heartbeat timeout exactly when a ping is outstanding.
pub proof fn lemma_heartbeat_timeout(s: ClientSession)
    requires
        s.wf(),
        !s.ended,
        s.state is Idle,
    ensures
        (s.next(ClientInput::Tick).1 == ClientAction::End(ClientEnd::HeartbeatTimeout))
            <==> s.awaiting_pong(),
        s.awaiting_pong() ==> s.next(ClientInput::Tick).0.ended,
{
}

/// The round trip in full: from an idle session ready to ping, a tick asks for a ping,
/// sending it makes a pong outstanding, and then a second tick before the pong ends
/// the session, while the matching pong instead makes the next tick ask for a ping.
pub proof fn lemma_heartbeat_round_trip(s: ClientSession)
    requires
        s.wf(),
        !s.ended,
        s.state is Idle,
        is_odd(s.ping_counter),
        s.ping_counter < u64::MAX - 2,
    ensures
        ({
            let (s1, a1) = s.next(ClientInput::Tick);
            let (s2, a2) = s1.next(ClientInput::PingSent);
            let (s3, a3) = s2.next(
                ClientInput::Received(ServerMessage::Pong { counter: s2.ping_counter }),
            );
            &&& a1 == ClientAction::SendPing { counter: s.ping_counter }
            &&& s2.awaiting_pong()
            &&& s2.next(ClientInput::Tick) == (s2.closed(), ClientAction::End(
                ClientEnd::HeartbeatTimeout,
            ))
            &&& a3 == ClientAction::ResetTicker
            &&& s3.ping_counter == s.ping_counter + 2
            &&& s3.next(ClientInput::Tick).1 == ClientAction::SendPing {
                counter: s3.ping_counter,
            }
        }),
{
    let s1 = s.next(ClientInput::Tick).0;
    assert(s1 == s);
    let s2 = s1.next(ClientInput::PingSent).0;
    assert(s2.ping_counter == s.ping_counter + 1);
    assert(s2.ping_counter % 2 == 0);
    let s3 = s2.next(pong_input(s2.ping_counter)).0;
    assert(s3.ping_counter == s.ping_counter + 2);
    assert(s3.ping_counter % 2 == 1);
}

} // verus!
