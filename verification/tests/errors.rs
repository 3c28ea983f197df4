use kitty_rc::CommandError;
use kitty_rc::ConnectionError;
use kitty_rc::EncryptionError;
use kitty_rc::KittyError;
use kitty_rc::ProtocolError;

#[test]
fn test_protocol_error_display() {
    let err = ProtocolError::InvalidEscapeSequence;
    assert!(err.to_string().contains("escape sequence"));
}

#[test]
fn test_command_error_display() {
    let err = CommandError::InvalidCommand("fake-cmd".to_string());
    assert!(err.to_string().contains("fake-cmd"));
}

#[test]
fn test_connection_error_display() {
    let err = ConnectionError::ConnectionClosed;
    assert_eq!(err.to_string(), "Connection closed unexpectedly");
}

#[test]
fn test_encryption_error_display() {
    let err = EncryptionError::NotImplemented;
    assert!(err.to_string().contains("not yet implemented"));
}

#[test]
fn test_top_level_error() {
    let cmd_err = CommandError::ValidationError("test".to_string());
    let kitty_err: KittyError = cmd_err.into();
    assert!(kitty_err.to_string().contains("validation"));
}

#[test]
fn test_io_error_conversion() {
    let io_err = std::io::Error::new(std::io::ErrorKind::NotFound, "test");
    let conn_err = ConnectionError::from(io_err);
    match conn_err {
        ConnectionError::SocketNotFound(_) => {}
        _ => panic!("Expected SocketNotFound error"),
    }
}

#[test]
fn test_missing_field_error() {
    let err = ProtocolError::MissingField("cmd".to_string());
    assert!(err.to_string().contains("cmd"));
}

#[test]
fn test_parameter_validation_error() {
    let err = CommandError::MissingParameter("match".to_string(), "ls".to_string());
    let msg = err.to_string();
    assert!(msg.contains("match") && msg.contains("ls"));
}

#[test]
fn test_error_display() {
    let err = ConnectionError::ConnectionClosed;
    assert_eq!(err.to_string(), "Connection closed unexpectedly");
}

#[test]
fn test_unsupported_version_display() {
    let err = ProtocolError::UnsupportedVersion(vec![0, 43, 1]);
    assert_eq!(err.to_string(), "Unsupported protocol version: [0, 43, 1]");
}

#[test]
fn test_connection_error_texts() {
    assert_eq!(
        ConnectionError::TimeoutError(1500).to_string(),
        "Connection timeout after 1500ms"
    );
    assert_eq!(
        ConnectionError::MaxRetriesExceeded(3).to_string(),
        "Maximum retry attempts (3) exceeded"
    );
    assert_eq!(
        EncryptionError::PublicKeyTooShort { expected: 32, actual: 3 }.to_string(),
        "Public key too short: expected 32 bytes, got 3"
    );
}
