use kitty_rc::EncryptionError;
use kitty_rc::KittyBuilder;
use kitty_rc::ReadStep;
use kitty_rc::ReceiveState;
use kitty_rc::client::resolve_public_key;
use kitty_rc::ConnectionError;

#[test]
fn test_builder_creation() {
    let builder = KittyBuilder::new()
        .socket_path("/tmp/test.sock".to_string())
        .timeout(5000);
    assert_eq!(builder.socket_path, Some("/tmp/test.sock".to_string()));
    assert_eq!(builder.timeout, 5000);
}

#[test]
fn test_builder_with_password() {
    let builder = KittyBuilder::new().password("test-password".to_string());
    assert_eq!(builder.password, Some("test-password".to_string()));
}

#[test]
fn test_builder_with_public_key() {
    let builder = KittyBuilder::new().public_key("1:abc123".to_string());
    assert_eq!(builder.public_key, Some("1:abc123".to_string()));
}

#[test]
fn test_extract_pid_from_socket_standard() {
    let pid = KittyBuilder::extract_pid_from_socket("/tmp/kitty-12345.sock");
    assert_eq!(pid, Some(12345));
}

#[test]
fn test_extract_pid_from_socket_xdg_runtime_dir() {
    let pid = KittyBuilder::extract_pid_from_socket("/run/user/1000/kitty-67890.sock");
    assert_eq!(pid, Some(67890));
}

#[test]
fn test_extract_pid_from_socket_invalid() {
    let pid = KittyBuilder::extract_pid_from_socket("/tmp/invalid.sock");
    assert_eq!(pid, None);
}

#[test]
fn test_extract_pid_from_socket_no_prefix() {
    let pid = KittyBuilder::extract_pid_from_socket("/tmp/12345.sock");
    assert_eq!(pid, None);
}

#[test]
fn test_extract_pid_from_socket_invalid_pid() {
    let pid = KittyBuilder::extract_pid_from_socket("/tmp/kitty-abc.sock");
    assert_eq!(pid, None);
}

#[test]
fn test_key_resolution_precedence() {
    let explicit = Some("1:explicit".to_string());
    let store = Some("1:store".to_string());
    let env = Some("1:env".to_string());
    assert_eq!(
        resolve_public_key(explicit.clone(), store.clone(), env.clone(), true).unwrap(),
        explicit
    );
    assert_eq!(
        resolve_public_key(None, store.clone(), env.clone(), true).unwrap(),
        store
    );
    assert_eq!(resolve_public_key(None, None, env.clone(), true).unwrap(), env);
    match resolve_public_key(None, None, None, true) {
        Err(EncryptionError::MissingPublicKey) => {}
        _ => panic!("expected a fatal missing-key error"),
    }
    assert_eq!(resolve_public_key(explicit, store, env, false).unwrap(), None);
}

#[test]
fn test_receive_closed_before_any_bytes() {
    let mut state = ReceiveState::new();
    let step = state.on_read(&[]);
    assert_eq!(step, ReadStep::Closed);
    match state.finish() {
        Err(ConnectionError::ConnectionClosed) => {}
        _ => panic!("an empty close must be a connection-closed error"),
    }
}

#[test]
fn test_receive_accumulates_until_terminator() {
    let mut state = ReceiveState::new();
    assert_eq!(state.on_read(b"\x1bP@kitty-cmd{\"ok\":"), ReadStep::Continue);
    assert_eq!(state.on_read(b"true}"), ReadStep::Continue);
    assert_eq!(state.on_read(b"\x1b\\"), ReadStep::Complete);
    let bytes = state.finish().unwrap();
    let resp = kitty_rc::KittyResponse::decode(&bytes).unwrap();
    assert!(resp.ok);
}

#[test]
fn test_receive_closed_mid_frame_is_connection_closed() {
    // A close after some bytes but before any terminator is a
    // connection-closed condition, never a truncated frame.
    let mut state = ReceiveState::new();
    assert_eq!(state.on_read(b"\x1bP@kitty-cmd{\"ok\":"), ReadStep::Continue);
    assert_eq!(state.on_read(&[]), ReadStep::Closed);
    match state.finish() {
        Err(ConnectionError::ConnectionClosed) => {}
        _ => panic!("a mid-frame close must be a connection-closed error"),
    }
}

#[test]
fn test_receive_complete_then_closed_still_decodes() {
    let mut state = ReceiveState::new();
    assert_eq!(state.on_read(b"\x1bP@kitty-cmd{\"ok\":true}\x1b\\"), ReadStep::Complete);
    let bytes = state.finish().unwrap();
    assert!(kitty_rc::KittyResponse::decode(&bytes).unwrap().ok);
}
