use terong::client::{ClientAction, ClientEnd, ClientInput, ClientSession};
use terong::codec::{
    decode_client_message, decode_frame, decode_server_message, encode_client_message,
    encode_frame, encode_server_message,
};
use terong::protocol::{ClientMessage, HelloReply, InputEvent, ServerMessage};
use terong::reconnect::{ConnectError, ControllerAction, ReconnectController};
use terong::registry::{Admission, EventRoute, SessionRegistry};
use terong::server::{ServerAction, ServerEnd, ServerInput, ServerSession, ServerState};

fn over_the_wire(bytes: &[u8]) -> Vec<u8> {
    let framed = encode_frame(bytes);
    let (payload, used) = decode_frame(&framed).expect("a whole frame");
    assert_eq!(used, framed.len());
    payload
}

#[test]
fn event_reaches_the_client_exactly_once() {
    let server_version = "1.0.0".to_string();
    let mut reg = SessionRegistry::new();
    assert_eq!(reg.on_connection(), Admission::Accept);
    let mut server = ServerSession::new();
    let mut client = ClientSession::new();

    let hello = ClientMessage::Hello { client_version: "1.0.0".to_string() };
    let received = decode_client_message(&over_the_wire(&encode_client_message(&hello)));
    let client_version = match received {
        Ok(ClientMessage::Hello { client_version }) => client_version,
        other => panic!("unexpected {:?}", other),
    };
    let reply = match server.on_hello(&client_version, &server_version) {
        ServerAction::ReplyAndUpgrade { reply } => reply,
        other => panic!("unexpected {:?}", other),
    };
    let reply_bytes = encode_server_message(&ServerMessage::HelloReply(reply));
    assert_eq!(
        decode_server_message(&over_the_wire(&reply_bytes)),
        Ok(ServerMessage::HelloReply(HelloReply::Accepted))
    );
    assert_eq!(server.step(ServerInput::Upgraded), ServerAction::Wait);
    assert_eq!(client.step(ClientInput::Upgraded), ClientAction::Wait);

    let e1 = InputEvent { kind: 1, code: 30, value: 1 };
    let routed = reg.route_event(Some(e1), Some(server.state));
    assert_eq!(routed, EventRoute::Forward(e1));
    let sent = match server.step(ServerInput::EventArrived(e1)) {
        ServerAction::Relay { event } => encode_server_message(&ServerMessage::Event(event)),
        other => panic!("unexpected {:?}", other),
    };
    assert_eq!(server.step(ServerInput::Relayed), ServerAction::Wait);

    let mut emulated = Vec::new();
    let msg = decode_server_message(&over_the_wire(&sent)).expect("a server message");
    match client.step(ClientInput::Received(msg)) {
        ClientAction::Forward { event } => emulated.push(event),
        other => panic!("unexpected {:?}", other),
    }
    assert_eq!(client.step(ClientInput::Forwarded), ClientAction::Wait);
    assert_eq!(emulated, vec![e1]);
    assert!(!client.ended);
    assert!(!server.ended);
}

#[test]
fn unreachable_server_ends_reconnection() {
    let mut ctl = ReconnectController::new();
    let mut attempts = 0;
    while ctl.may_dial() {
        attempts += 1;
        assert!(attempts < 10);
        ctl.on_outcome(&Err(ConnectError::timeout()));
    }
    assert_eq!(attempts, 1);
}

#[test]
fn dropped_peer_ends_sessions_and_client_redials() {
    let mut client = ClientSession::new();
    client.step(ClientInput::Upgraded);
    assert_eq!(client.step(ClientInput::Tick), ClientAction::SendPing { counter: 1 });
    client.step(ClientInput::PingSent);
    assert_eq!(
        client.step(ClientInput::Tick),
        ClientAction::End(ClientEnd::HeartbeatTimeout)
    );
    let mut ctl = ReconnectController::new();
    let err = ConnectError::Other { msg: "heartbeat timed out".to_string() };
    assert_eq!(ctl.on_outcome(&Err(err)), ControllerAction::Redial { delay_secs: 5 });

    let mut reg = SessionRegistry::new();
    reg.on_connection();
    let mut server = ServerSession::new();
    let v = "1.0.0".to_string();
    server.on_hello(&v, &v);
    server.step(ServerInput::Upgraded);
    assert_eq!(server.state, ServerState::Idle);
    assert_eq!(
        server.step(ServerInput::Probed { closed: true }),
        ServerAction::End(ServerEnd::ClientDisconnected)
    );
    reg.on_session_finished();
    assert_eq!(reg.on_connection(), Admission::Accept);
}
