use terong::reconnect::{
    ConnectError, ControllerAction, ReconnectController, CONNECT_TIMEOUT_SECS, REDIAL_DELAY_SECS,
};

#[test]
fn timeout_message_names_the_limit() {
    let err = ConnectError::timeout();
    assert_eq!(err.message(), "failed to connect to the server after 20 secs");
    assert_eq!(CONNECT_TIMEOUT_SECS, 20);
}

#[test]
fn other_error_keeps_its_message() {
    let err = ConnectError::Other { msg: "tls connect failed".to_string() };
    assert_eq!(err.message(), "tls connect failed");
}

#[test]
fn unreachable_server_stops_reconnection_for_good() {
    let mut c = ReconnectController::new();
    assert!(c.may_dial());
    assert_eq!(c.on_outcome(&Err(ConnectError::timeout())), ControllerAction::Stop);
    assert!(!c.may_dial());
    assert_eq!(c.on_outcome(&Ok(())), ControllerAction::Stop);
    assert!(!c.may_dial());
}

#[test]
fn transient_failure_redials_after_five_seconds() {
    let mut c = ReconnectController::new();
    let err = ConnectError::Other { msg: "heartbeat timed out".to_string() };
    assert_eq!(c.on_outcome(&Err(err)), ControllerAction::Redial { delay_secs: 5 });
    assert_eq!(c.on_outcome(&Ok(())), ControllerAction::Redial { delay_secs: REDIAL_DELAY_SECS });
    assert!(c.may_dial());
}
