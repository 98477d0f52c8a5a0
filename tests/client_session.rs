use terong::client::{ClientAction, ClientEnd, ClientInput, ClientSession, SessionState};
use terong::protocol::{HelloReply, InputEvent, ServerMessage};

fn idle() -> ClientSession {
    let mut s = ClientSession::new();
    assert_eq!(s.step(ClientInput::Upgraded), ClientAction::Wait);
    assert_eq!(s.state, SessionState::Idle);
    s
}

fn pong(counter: u64) -> ClientInput {
    ClientInput::Received(ServerMessage::Pong { counter })
}

#[test]
fn new_session_handshakes_with_odd_counter() {
    let s = ClientSession::new();
    assert_eq!(s.state, SessionState::Handshaking);
    assert_eq!(s.ping_counter, 1);
    assert!(!s.ended);
}

#[test]
fn failed_upgrade_ends_session() {
    let mut s = ClientSession::new();
    assert_eq!(
        s.step(ClientInput::UpgradeFailed),
        ClientAction::End(ClientEnd::HandshakeFailed)
    );
    assert!(s.ended);
    assert_eq!(s.step(ClientInput::Upgraded), ClientAction::Wait);
    assert_eq!(s.state, SessionState::Handshaking);
}

#[test]
fn counter_alternates_over_healthy_round_trips() {
    let mut s = idle();
    for round in 0..3u64 {
        let odd = 1 + 2 * round;
        assert_eq!(s.ping_counter, odd);
        assert_eq!(s.step(ClientInput::Tick), ClientAction::SendPing { counter: odd });
        assert_eq!(s.step(ClientInput::PingSent), ClientAction::Wait);
        assert_eq!(s.ping_counter, odd + 1);
        assert_eq!(s.step(pong(odd + 1)), ClientAction::ResetTicker);
        assert_eq!(s.ping_counter, odd + 2);
        assert!(!s.ended);
    }
}

#[test]
fn mismatched_pong_ends_session() {
    let mut s = idle();
    s.step(ClientInput::Tick);
    s.step(ClientInput::PingSent);
    assert_eq!(s.step(pong(7)), ClientAction::End(ClientEnd::PongMismatch));
    assert!(s.ended);
}

#[test]
fn pong_without_outstanding_ping_ends_session() {
    let mut s = idle();
    assert_eq!(s.step(pong(1)), ClientAction::End(ClientEnd::PongMismatch));
    assert!(s.ended);
}

#[test]
fn one_missed_round_trip_times_out() {
    let mut s = idle();
    assert_eq!(s.step(ClientInput::Tick), ClientAction::SendPing { counter: 1 });
    s.step(ClientInput::PingSent);
    assert_eq!(
        s.step(ClientInput::Tick),
        ClientAction::End(ClientEnd::HeartbeatTimeout)
    );
    assert!(s.ended);
}

#[test]
fn tick_without_outstanding_ping_does_not_time_out() {
    let mut s = idle();
    for _ in 0..4 {
        assert_eq!(s.step(ClientInput::Tick), ClientAction::SendPing { counter: 1 });
        assert!(!s.ended);
    }
}

#[test]
fn failed_ping_ends_session() {
    let mut s = idle();
    s.step(ClientInput::Tick);
    assert_eq!(
        s.step(ClientInput::PingFailed),
        ClientAction::End(ClientEnd::PingSendFailed)
    );
}

#[test]
fn event_is_forwarded_then_idle() {
    let e = InputEvent { kind: 1, code: 30, value: 1 };
    let mut s = idle();
    assert_eq!(
        s.step(ClientInput::Received(ServerMessage::Event(e))),
        ClientAction::Forward { event: e }
    );
    assert_eq!(s.state, SessionState::EventRelayed { event: e });
    assert_eq!(s.step(ClientInput::Forwarded), ClientAction::Wait);
    assert_eq!(s.state, SessionState::Idle);
}

#[test]
fn closed_forward_channel_ends_session() {
    let e = InputEvent { kind: 2, code: 0, value: -5 };
    let mut s = idle();
    s.step(ClientInput::Received(ServerMessage::Event(e)));
    assert_eq!(
        s.step(ClientInput::ForwardFailed),
        ClientAction::End(ClientEnd::ForwardChannelClosed)
    );
}

#[test]
fn unexpected_message_is_ignored() {
    let mut s = idle();
    assert_eq!(
        s.step(ClientInput::Received(ServerMessage::HelloReply(HelloReply::Accepted))),
        ClientAction::Wait
    );
    assert_eq!(s.state, SessionState::Idle);
    assert!(!s.ended);
}

#[test]
fn exhausted_counter_ends_session() {
    let mut s = idle();
    s.ping_counter = u64::MAX;
    assert_eq!(
        s.step(ClientInput::Tick),
        ClientAction::End(ClientEnd::CounterExhausted)
    );
}
