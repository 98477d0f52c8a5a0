use vstd::prelude::*;

verus! {

/// One captured input action, relayed between the hosts without inspection.
#[derive(Clone, Copy, Debug, PartialEq, Eq, Structural)]
pub struct InputEvent {
    pub kind: u16,
    pub code: u16,
    pub value: i32,
}

/// Why a server refused a `Hello`.
#[derive(Clone, Copy, Debug, PartialEq, Eq, Structural)]
pub enum HelloReplyError {
    VersionMismatch,
}

/// The server's answer to a `Hello`.
#[derive(Clone, Copy, Debug, PartialEq, Eq, Structural)]
pub enum HelloReply {
    Accepted,
    Rejected(HelloReplyError),
}

/// Messages that travel from the server to the client.
#[derive(Clone, Copy, Debug, PartialEq, Eq, Structural)]
pub enum ServerMessage {
    HelloReply(HelloReply),
    Pong { counter: u64 },
    Event(InputEvent),
}

/// Messages that travel from the client to the server.
#[derive(Clone, Debug)]
pub enum ClientMessage {
    Hello { client_version: String },
    Ping { counter: u64 },
}

} // verus!
