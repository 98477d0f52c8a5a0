use terong::protocol::InputEvent;
use terong::registry::{Admission, EventRoute, SessionRegistry};
use terong::server::ServerState;

#[test]
fn second_connection_is_rejected_until_session_finishes() {
    let mut reg = SessionRegistry::new();
    assert_eq!(reg.on_connection(), Admission::Accept);
    assert_eq!(reg.on_connection(), Admission::Reject);
    assert_eq!(reg.on_connection(), Admission::Reject);
    reg.on_session_finished();
    assert_eq!(reg.on_connection(), Admission::Accept);
}

#[test]
fn events_without_session_are_discarded() {
    let reg = SessionRegistry::new();
    let e = InputEvent { kind: 1, code: 2, value: 1 };
    assert_eq!(reg.route_event(Some(e), None), EventRoute::Discard);
}

#[test]
fn events_during_handshake_are_discarded() {
    let mut reg = SessionRegistry::new();
    reg.on_connection();
    let e = InputEvent { kind: 1, code: 2, value: 1 };
    assert_eq!(
        reg.route_event(Some(e), Some(ServerState::Handshaking)),
        EventRoute::Discard
    );
}

#[test]
fn events_while_connected_are_forwarded_in_order() {
    let mut reg = SessionRegistry::new();
    reg.on_connection();
    let subs = [
        (InputEvent { kind: 1, code: 1, value: 1 }, Some(ServerState::Handshaking)),
        (InputEvent { kind: 1, code: 2, value: 1 }, Some(ServerState::Idle)),
        (InputEvent { kind: 1, code: 3, value: 1 }, None),
        (
            InputEvent { kind: 1, code: 4, value: 0 },
            Some(ServerState::RelayingEvent { event: InputEvent { kind: 1, code: 2, value: 1 } }),
        ),
    ];
    let mut forwarded = Vec::new();
    for (e, st) in subs.iter() {
        if let EventRoute::Forward(f) = reg.route_event(Some(*e), *st) {
            forwarded.push(f);
        }
    }
    assert_eq!(
        forwarded,
        vec![
            InputEvent { kind: 1, code: 2, value: 1 },
            InputEvent { kind: 1, code: 4, value: 0 }
        ]
    );
}

#[test]
fn closed_capture_side_stops_server() {
    let reg = SessionRegistry::new();
    assert_eq!(reg.route_event(None, Some(ServerState::Idle)), EventRoute::Stop);
}
