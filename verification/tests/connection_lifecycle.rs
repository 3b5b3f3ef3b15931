use matrix_rpg_net::config::SharedSettings;
use matrix_rpg_net::connection::client_connect_request;
use matrix_rpg_net::connection::silence_exceeded;
use matrix_rpg_net::connection::validate_connect;
use matrix_rpg_net::connection::ClientConnection;
use matrix_rpg_net::connection::ConnectAction;
use matrix_rpg_net::connection::ConnectRequest;
use matrix_rpg_net::connection::ConnectionState;
use matrix_rpg_net::connection::HandshakeVerdict;
use matrix_rpg_net::connection::CONNECT_MAX_RETRIES;
use matrix_rpg_net::connection::CONNECT_TIMEOUT_TICKS;

fn settings() -> SharedSettings {
    SharedSettings { protocol_id: 80085, private_key: [7u8; 32] }
}

#[test]
fn matching_secret_and_protocol_are_accepted() {
    let req = client_connect_request(42, &settings());
    match validate_connect(&req, &settings()) {
        HandshakeVerdict::Accepted { client_id } => assert_eq!(client_id, 42),
        HandshakeVerdict::Rejected => panic!("a well-configured client must be accepted"),
    }
}

#[test]
fn wrong_secret_is_rejected() {
    let mut req = client_connect_request(42, &settings());
    req.secret[31] = 0;
    assert!(matches!(validate_connect(&req, &settings()), HandshakeVerdict::Rejected));
}

#[test]
fn protocol_mismatch_is_rejected() {
    let req = ConnectRequest { client_id: 42, protocol_id: 1, secret: [7u8; 32] };
    assert!(matches!(validate_connect(&req, &settings()), HandshakeVerdict::Rejected));
}

#[test]
fn connect_attempt_retries_then_fails() {
    let mut conn = ClientConnection::new();
    assert!(matches!(conn.begin_connect(), ConnectAction::SendRequest));
    let mut sends = 0u64;
    let mut failed = false;
    for _ in 0..(CONNECT_TIMEOUT_TICKS * (CONNECT_MAX_RETRIES + 2)) {
        match conn.on_tick() {
            ConnectAction::Idle => {}
            ConnectAction::SendRequest => sends += 1,
            ConnectAction::Fail => {
                failed = true;
                break;
            }
        }
    }
    assert_eq!(sends, CONNECT_MAX_RETRIES);
    assert!(failed, "a pending attempt must not wait unboundedly");
    assert!(matches!(conn.state, ConnectionState::Disconnected));
}

#[test]
fn acceptance_binds_the_identity() {
    let mut conn = ClientConnection::new();
    conn.begin_connect();
    conn.on_accepted(42);
    assert!(matches!(conn.state, ConnectionState::Connected { client_id: 42 }));
    // A stale acceptance after disconnect is dropped.
    conn.disconnect();
    conn.on_accepted(43);
    assert!(matches!(conn.state, ConnectionState::Disconnected));
}

#[test]
fn rejection_surfaces_as_failure() {
    let mut conn = ClientConnection::new();
    conn.begin_connect();
    assert!(matches!(conn.on_rejected(), ConnectAction::Fail));
    assert!(matches!(conn.state, ConnectionState::Disconnected));
}

#[test]
fn silence_detection_uses_the_timeout() {
    assert!(!silence_exceeded(100, 120, 30));
    assert!(silence_exceeded(100, 130, 30));
    assert!(silence_exceeded(100, 131, 30));
}
