use cdrs::authenticators::{Authenticator, NoneAuthenticator, PasswordAuthenticator};
use cdrs::error::{CdrsError, ProtocolErrorKind};
use cdrs::frame::{decode_frame, decode_header, Frame, Opcode};
use cdrs::ssl_connection_pool::{ConnAction, ConnEvent, ConnState, NodeSslConfig, SslConnectionsManager};

fn reply(opcode: u8, body: &[u8]) -> Frame {
    let mut bytes: Vec<u8> = vec![0x84, 0, 0, 0, opcode, 0, 0, 0, body.len() as u8];
    bytes.extend_from_slice(body);
    let h = decode_header(&bytes).unwrap();
    decode_frame(h, bytes[9..].to_vec()).unwrap()
}

fn sent(a: &ConnAction) -> &Frame {
    match a {
        ConnAction::Send(f) => f,
        other => panic!("expected a frame to send, got {:?}", other),
    }
}

#[test]
fn manager_keeps_address() {
    let m = SslConnectionsManager::new("127.0.0.1:9042", NoneAuthenticator);
    assert_eq!(m.addr(), "127.0.0.1:9042");
}

#[test]
fn handshake_without_authentication_reaches_ready() {
    let m = SslConnectionsManager::new("127.0.0.1:9042", NoneAuthenticator);
    let t = m.step(ConnState::Connecting, ConnEvent::Opened, 0);
    assert_eq!(t.state, ConnState::Handshaking);
    let startup = sent(&t.action);
    assert_eq!(startup.opcode, Opcode::Startup);
    assert_eq!(startup.body, Frame::new_req_startup(0, None).body);
    let ready = reply(0x02, &[]);
    assert_eq!(ready.opcode, Opcode::Ready);
    let t = m.step(ConnState::Handshaking, ConnEvent::Received(ready), 0);
    assert_eq!(t.state, ConnState::Ready);
    assert!(matches!(t.action, ConnAction::Done));
}

#[test]
fn handshake_with_password() {
    let m = SslConnectionsManager::new("db:9042", PasswordAuthenticator::new(b"u".to_vec(), b"pw".to_vec()));
    let auth = reply(0x03, &[0, 1, b'X']);
    let t = m.step(ConnState::Handshaking, ConnEvent::Received(auth), 7);
    assert_eq!(t.state, ConnState::Authenticating);
    let resp = sent(&t.action);
    assert_eq!(resp.opcode, Opcode::AuthResponse);
    assert_eq!(resp.stream, 7);
    assert_eq!(resp.body, vec![0, 0, 0, 5, 0, b'u', 0, b'p', b'w']);
    let challenge = reply(0x0E, &[0, 0, 0, 1, 42]);
    let t = m.step(ConnState::Authenticating, ConnEvent::Received(challenge), 8);
    assert_eq!(t.state, ConnState::Authenticating);
    assert_eq!(sent(&t.action).opcode, Opcode::AuthResponse);
    let success = reply(0x10, &[0xff, 0xff, 0xff, 0xff]);
    let t = m.step(ConnState::Authenticating, ConnEvent::Received(success), 9);
    assert_eq!(t.state, ConnState::Ready);
    assert!(matches!(t.action, ConnAction::Done));
}

#[test]
fn rejected_credentials_close_with_auth_error() {
    let m = SslConnectionsManager::new("db:9042", NoneAuthenticator);
    let e = CdrsError::Server { code: 0x0100, message: b"bad".to_vec() };
    let t = m.step(ConnState::Authenticating, ConnEvent::Failed(e), 0);
    assert_eq!(t.state, ConnState::Closed);
    match t.action {
        ConnAction::Fail(CdrsError::Auth { code, message }) => {
            assert_eq!(code, 0x0100);
            assert_eq!(message, b"bad".to_vec());
        }
        other => panic!("unexpected {:?}", other),
    }
    assert!(m.has_broken(&t.state));
}

#[test]
fn unexpected_handshake_answer_closes() {
    let m = SslConnectionsManager::new("db:9042", NoneAuthenticator);
    let t = m.step(ConnState::Handshaking, ConnEvent::Received(reply(0x08, &[])), 0);
    assert_eq!(t.state, ConnState::Closed);
    assert!(matches!(t.action, ConnAction::Fail(CdrsError::Protocol(ProtocolErrorKind::UnexpectedOpcode))));
}

#[test]
fn failed_connect_closes() {
    let m = SslConnectionsManager::new("10.255.255.1:9042", NoneAuthenticator);
    let t = m.step(ConnState::Connecting, ConnEvent::Failed(CdrsError::Io), 0);
    assert_eq!(t.state, ConnState::Closed);
    assert!(matches!(t.action, ConnAction::Fail(CdrsError::Io)));
}

#[test]
fn validation_of_dead_socket_breaks() {
    let m = SslConnectionsManager::new("db:9042", NoneAuthenticator);
    let t = m.step(ConnState::Ready, ConnEvent::Validate, 3);
    assert_eq!(t.state, ConnState::Validating);
    let probe = sent(&t.action);
    assert_eq!(probe.opcode, Opcode::Options);
    assert!(probe.body.is_empty());
    let t = m.step(ConnState::Validating, ConnEvent::Failed(CdrsError::Io), 3);
    assert_eq!(t.state, ConnState::Broken);
    assert!(matches!(t.action, ConnAction::Fail(CdrsError::Io)));
    assert!(m.has_broken(&t.state));
    let mut st = t.state;
    for ev in [ConnEvent::Validate, ConnEvent::Opened, ConnEvent::Received(reply(0x06, &[0, 0]))] {
        st = m.step(st, ev, 0).state;
        assert_eq!(st, ConnState::Broken);
    }
}

#[test]
fn validation_accepts_any_answer() {
    let m = SslConnectionsManager::new("db:9042", NoneAuthenticator);
    let t = m.step(ConnState::Validating, ConnEvent::Received(reply(0x06, &[0, 0])), 0);
    assert_eq!(t.state, ConnState::Ready);
    let e = CdrsError::Server { code: 1, message: vec![] };
    let t = m.step(ConnState::Validating, ConnEvent::Failed(e), 0);
    assert_eq!(t.state, ConnState::Ready);
    assert!(!m.has_broken(&t.state));
}

#[test]
fn failed_request_discards_connection() {
    let m = SslConnectionsManager::new("db:9042", NoneAuthenticator);
    let t = m.step(ConnState::Ready, ConnEvent::Failed(CdrsError::Protocol(ProtocolErrorKind::LengthMismatch)), 0);
    assert_eq!(t.state, ConnState::Broken);
    assert!(m.has_broken(&t.state));
    let e = CdrsError::Server { code: 0x2200, message: vec![] };
    let t = m.step(ConnState::Ready, ConnEvent::Failed(e), 0);
    assert_eq!(t.state, ConnState::Ready);
    assert!(matches!(t.action, ConnAction::Fail(CdrsError::Server { code: 0x2200, .. })));
}

#[test]
fn password_token() {
    let a = PasswordAuthenticator::new(b"cassandra".to_vec(), b"pw".to_vec());
    let mut expected = vec![0u8];
    expected.extend_from_slice(b"cassandra");
    expected.push(0);
    expected.extend_from_slice(b"pw");
    assert_eq!(a.auth_token(), expected);
    assert!(NoneAuthenticator.auth_token().is_empty());
}

#[test]
fn pool_config_validation() {
    assert!(NodeSslConfig::new("db:9042", NoneAuthenticator, 4, Some(1), None, Some(1000), 5000).is_ok());
    assert!(matches!(NodeSslConfig::new("db", NoneAuthenticator, 0, None, None, None, 5000), Err(CdrsError::Pool)));
    assert!(matches!(NodeSslConfig::new("db", NoneAuthenticator, 2, Some(3), None, None, 5000), Err(CdrsError::Pool)));
    assert!(NodeSslConfig::new("db", NoneAuthenticator, 3, Some(3), None, None, 5000).is_ok());
    assert!(matches!(NodeSslConfig::new("db", NoneAuthenticator, 2, None, Some(0), None, 5000), Err(CdrsError::Pool)));
    assert!(matches!(NodeSslConfig::new("db", NoneAuthenticator, 2, None, None, Some(0), 5000), Err(CdrsError::Pool)));
    assert!(matches!(NodeSslConfig::new("db", NoneAuthenticator, 2, None, None, None, 0), Err(CdrsError::Pool)));
}
