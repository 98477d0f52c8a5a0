use terong::protocol::{HelloReply, HelloReplyError, InputEvent};
use terong::server::{is_connected, ServerAction, ServerEnd, ServerInput, ServerSession, ServerState};

fn idle() -> ServerSession {
    let mut s = ServerSession::new();
    let v = "1.0.0".to_string();
    assert_eq!(
        s.on_hello(&v, &v),
        ServerAction::ReplyAndUpgrade { reply: HelloReply::Accepted }
    );
    assert_eq!(s.step(ServerInput::Upgraded), ServerAction::Wait);
    assert_eq!(s.state, ServerState::Idle);
    s
}

#[test]
fn matching_version_upgrades() {
    let s = idle();
    assert!(!s.ended);
}

#[test]
fn version_mismatch_rejects_without_upgrade() {
    let mut s = ServerSession::new();
    let action = s.on_hello(&"0.9.0".to_string(), &"1.0.0".to_string());
    assert_eq!(
        action,
        ServerAction::ReplyAndEnd {
            reply: HelloReply::Rejected(HelloReplyError::VersionMismatch)
        }
    );
    assert!(s.ended);
    assert_eq!(s.step(ServerInput::Upgraded), ServerAction::Wait);
    let e = InputEvent { kind: 1, code: 2, value: 3 };
    assert_eq!(s.step(ServerInput::EventArrived(e)), ServerAction::Wait);
    assert_eq!(s.state, ServerState::Handshaking);
}

#[test]
fn handshake_failure_ends_session() {
    let mut s = ServerSession::new();
    assert_eq!(
        s.step(ServerInput::HandshakeFailed),
        ServerAction::End(ServerEnd::HandshakeFailed)
    );
}

#[test]
fn event_is_relayed_once_then_idle() {
    let e = InputEvent { kind: 1, code: 44, value: 0 };
    let mut s = idle();
    assert_eq!(s.step(ServerInput::EventArrived(e)), ServerAction::Relay { event: e });
    assert_eq!(s.state, ServerState::RelayingEvent { event: e });
    assert_eq!(s.step(ServerInput::Relayed), ServerAction::Wait);
    assert_eq!(s.state, ServerState::Idle);
}

#[test]
fn relay_failure_ends_session() {
    let e = InputEvent { kind: 1, code: 44, value: 0 };
    let mut s = idle();
    s.step(ServerInput::EventArrived(e));
    assert_eq!(
        s.step(ServerInput::RelayFailed),
        ServerAction::End(ServerEnd::RelayFailed)
    );
}

#[test]
fn probe_detects_disconnect() {
    let mut s = idle();
    assert_eq!(s.step(ServerInput::Probed { closed: false }), ServerAction::Wait);
    assert!(!s.ended);
    assert_eq!(
        s.step(ServerInput::Probed { closed: true }),
        ServerAction::End(ServerEnd::ClientDisconnected)
    );
    assert!(s.ended);
}

#[test]
fn closed_channel_ends_session() {
    let mut s = idle();
    assert_eq!(
        s.step(ServerInput::ChannelClosed),
        ServerAction::End(ServerEnd::ChannelClosed)
    );
}

#[test]
fn connected_only_past_handshake() {
    let e = InputEvent { kind: 0, code: 0, value: 0 };
    assert!(!is_connected(ServerState::Handshaking));
    assert!(is_connected(ServerState::Idle));
    assert!(is_connected(ServerState::RelayingEvent { event: e }));
}
