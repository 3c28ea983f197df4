//! Error taxonomy: one tagged union per subsystem (framing, commands,
//! encryption, connection) plus one top-level union that wraps each.
use vstd::prelude::*;
use vstd::string::StringExecFns;

verus! {

/// Errors in protocol message framing, encoding, and decoding.
#[derive(Debug)]
pub enum ProtocolError {
    InvalidMessageFormat(String),
    JsonError(String),
    MissingField(String),
    InvalidEscapeSequence,
    EnvelopeParseError(String),
    PayloadValidationError(String),
    UnsupportedVersion(Vec<u32>),
}

/// Errors in command construction, validation, and execution.
#[derive(Debug)]
pub enum CommandError {
    InvalidCommand(String),
    MissingParameter(String, String),
    InvalidParameter(String, String),
    ValidationError(String),
    InvalidWindowMatch(String),
    InvalidTabMatch(String),
    InvalidLayout(String),
    KittyError(String, String),
    ExecutionFailed(String),
    AsyncCancelled(String),
}

/// Errors in encryption and key handling.
#[derive(Debug)]
pub enum EncryptionError {
    NotImplemented,
    MissingPublicKey,
    InvalidPublicKey(String),
    PublicKeyTooShort { expected: usize, actual: usize },
    EncryptionFailed(String),
    DecryptionFailed(String),
    InvalidPublicKeyFormat,
}

/// Errors in connection, transport, and I/O.
#[derive(Debug)]
pub enum ConnectionError {
    ConnectionFailed(String, String),
    TimeoutError(u64),
    SendError(String),
    ReceiveError(String),
    ConnectionClosed,
    SocketNotFound(String),
    PermissionDenied(String),
    MaxRetriesExceeded(usize),
}

/// Top-level error type for the library.
#[derive(Debug)]
pub enum KittyError {
    Protocol(ProtocolError),
    Command(CommandError),
    Connection(ConnectionError),
    Encryption(EncryptionError),
    Io(String),
}

/// The classes of I/O failure the connection layer distinguishes.
#[derive(Debug, PartialEq, Eq, Structural, Clone, Copy)]
pub enum IoErrorKind {
    NotFound,
    PermissionDenied,
    ConnectionRefused,
    Other,
}

/// Relies on `std::io::Error` being an ordinary type; it is carried opaquely.
#[verifier::external_type_specification]
#[verifier::external_body]
pub struct ExIoError(std::io::Error);

/// Relies on `std::io::Error::kind` to distinguish not-found,
/// permission-denied and connection-refused failures from the rest.
#[verifier::external_body]
fn io_error_category(e: &std::io::Error) -> IoErrorKind {
    match e.kind() {
        std::io::ErrorKind::NotFound => IoErrorKind::NotFound,
        std::io::ErrorKind::PermissionDenied => IoErrorKind::PermissionDenied,
        std::io::ErrorKind::ConnectionRefused => IoErrorKind::ConnectionRefused,
        _ => IoErrorKind::Other,
    }
}

/// The abstract connection error that stands for one I/O failure class.
pub open spec fn spec_conn_err_of_kind(k: IoErrorKind) -> (int, Seq<char>, Seq<char>, int) {
    match k {
        IoErrorKind::NotFound => (5, "unknown"@, Seq::empty(), 0),
        IoErrorKind::PermissionDenied => (6, "unknown"@, Seq::empty(), 0),
        IoErrorKind::ConnectionRefused => (0, "connection refused"@, "unknown"@, 0),
        IoErrorKind::Other => (0, "unknown"@, "unknown"@, 0),
    }
}

impl ConnectionError {
    /// The connection error for one I/O failure class.
    pub fn of_kind(k: IoErrorKind) -> (r: ConnectionError)
        ensures
            view_conn_err(r) == spec_conn_err_of_kind(k),
    {
        match k {
            IoErrorKind::NotFound => ConnectionError::SocketNotFound(String::from_str("unknown")),
            IoErrorKind::PermissionDenied => ConnectionError::PermissionDenied(
                String::from_str("unknown"),
            ),
            IoErrorKind::ConnectionRefused => ConnectionError::ConnectionFailed(
                String::from_str("connection refused"),
                String::from_str("unknown"),
            ),
            IoErrorKind::Other => ConnectionError::ConnectionFailed(
                String::from_str("unknown"),
                String::from_str("unknown"),
            ),
        }
    }

    /// Classifies an I/O failure, as the transport layer reports it.
    pub fn from(e: std::io::Error) -> (r: ConnectionError)
        ensures
            exists|k: IoErrorKind| view_conn_err(r) == #[trigger] spec_conn_err_of_kind(k),
    {
        let k = io_error_category(&e);
        let r = Self::of_kind(k);
        proof {
            assert(view_conn_err(r) == spec_conn_err_of_kind(k));
        }
        r
    }
}

/// The abstract value of a connection error: its tag and texts.
pub open spec fn view_conn_err(e: ConnectionError) -> (int, Seq<char>, Seq<char>, int) {
    match e {
        ConnectionError::ConnectionFailed(a, b) => (0, a@, b@, 0),
        ConnectionError::TimeoutError(ms) => (1, Seq::empty(), Seq::empty(), ms as int),
        ConnectionError::SendError(a) => (2, a@, Seq::empty(), 0),
        ConnectionError::ReceiveError(a) => (3, a@, Seq::empty(), 0),
        ConnectionError::ConnectionClosed => (4, Seq::empty(), Seq::empty(), 0),
        ConnectionError::SocketNotFound(a) => (5, a@, Seq::empty(), 0),
        ConnectionError::PermissionDenied(a) => (6, a@, Seq::empty(), 0),
        ConnectionError::MaxRetriesExceeded(n) => (7, Seq::empty(), Seq::empty(), n as int),
    }
}


/// The text of a protocol version list, as the errors print it.
pub open spec fn spec_version_text(v: Seq<u32>, i: int) -> Seq<char>
    recommends
        0 <= i <= v.len(),
    decreases i,
{
    if i <= 0 {
        Seq::empty()
    } else if i == 1 {
        crate::json::spec_digits(v[0] as int)
    } else {
        spec_version_text(v, i - 1) + ", "@ + crate::json::spec_digits(v[i - 1] as int)
    }
}

/// The bracketed list text for a protocol version.
fn version_text(v: &Vec<u32>) -> (r: String)
    ensures
        r@ == seq!['['] + spec_version_text(v@, v@.len() as int) + seq![']'],
{
    let mut out = String::new();
    crate::json::string_push_char(&mut out, '[');
    let mut i: usize = 0;
    while i < v.len()
        invariant
            i <= v@.len(),
            out@ == seq!['['] + spec_version_text(v@, i as int),
        decreases v@.len() - i,
    {
        if i > 0 {
            out.append(", ");
        }
        let d = crate::json::u64_to_string(v[i] as u64);
        out.append(d.as_str());
        i = i + 1;
        assert(out@ =~= seq!['['] + spec_version_text(v@, i as int));
    }
    crate::json::string_push_char(&mut out, ']');
    assert(out@ =~= seq!['['] + spec_version_text(v@, v@.len() as int) + seq![']']);
    out
}

/// The description text of a protocol error.
pub open spec fn spec_protocol_error_text(e: ProtocolError) -> Seq<char> {
    match e {
        ProtocolError::InvalidMessageFormat(s) => "Invalid message format: "@ + s@,
        ProtocolError::JsonError(s) => "Failed to encode/decode JSON: "@ + s@,
        ProtocolError::MissingField(s) => "Missing required field '"@ + s@ + "' in message"@,
        ProtocolError::InvalidEscapeSequence => "Invalid escape sequence in message"@,
        ProtocolError::EnvelopeParseError(s) => "Response envelope parsing failed: "@ + s@,
        ProtocolError::PayloadValidationError(s) => "Message payload validation failed: "@ + s@,
        ProtocolError::UnsupportedVersion(v) => "Unsupported protocol version: "@ + seq!['[']
            + spec_version_text(v@, v@.len() as int) + seq![']'],
    }
}

impl ProtocolError {
    /// The human-readable description of this error.
    pub fn to_string(&self) -> (r: String)
        ensures
            r@ == spec_protocol_error_text(*self),
    {
        match self {
            ProtocolError::InvalidMessageFormat(s) => {
                let mut out = String::from_str("Invalid message format: ");
                out.append(s.as_str());
                out
            },
            ProtocolError::JsonError(s) => {
                let mut out = String::from_str("Failed to encode/decode JSON: ");
                out.append(s.as_str());
                out
            },
            ProtocolError::MissingField(s) => {
                let mut out = String::from_str("Missing required field '");
                out.append(s.as_str());
                out.append("' in message");
                out
            },
            ProtocolError::InvalidEscapeSequence => String::from_str(
                "Invalid escape sequence in message",
            ),
            ProtocolError::EnvelopeParseError(s) => {
                let mut out = String::from_str("Response envelope parsing failed: ");
                out.append(s.as_str());
                out
            },
            ProtocolError::PayloadValidationError(s) => {
                let mut out = String::from_str("Message payload validation failed: ");
                out.append(s.as_str());
                out
            },
            ProtocolError::UnsupportedVersion(v) => {
                let mut out = String::from_str("Unsupported protocol version: ");
                let t = version_text(v);
                out.append(t.as_str());
                out
            },
        }
    }
}

/// The description text of a command error.
pub open spec fn spec_command_error_text(e: CommandError) -> Seq<char> {
    match e {
        CommandError::InvalidCommand(s) => "Invalid command name: '"@ + s@
            + "' is not a recognized kitty command"@,
        CommandError::MissingParameter(p, c) => "Missing required parameter '"@ + p@
            + "' for command '"@ + c@ + "'"@,
        CommandError::InvalidParameter(p, m) => "Invalid parameter value for '"@ + p@ + "': "@
            + m@,
        CommandError::ValidationError(s) => "Command validation failed: "@ + s@,
        CommandError::InvalidWindowMatch(s) => "Invalid window match specification: "@ + s@,
        CommandError::InvalidTabMatch(s) => "Invalid tab match specification: "@ + s@,
        CommandError::InvalidLayout(s) => "Invalid layout specification: "@ + s@,
        CommandError::KittyError(c, m) => "Kitty returned error for command '"@ + c@ + "': "@
            + m@,
        CommandError::ExecutionFailed(s) => "Command execution failed with status: "@ + s@,
        CommandError::AsyncCancelled(s) => "Async command '"@ + s@ + "' was cancelled"@,
    }
}

impl CommandError {
    /// The human-readable description of this error.
    pub fn to_string(&self) -> (r: String)
        ensures
            r@ == spec_command_error_text(*self),
    {
        match self {
            CommandError::InvalidCommand(s) => {
                let mut out = String::from_str("Invalid command name: '");
                out.append(s.as_str());
                out.append("' is not a recognized kitty command");
                out
            },
            CommandError::MissingParameter(p, c) => {
                let mut out = String::from_str("Missing required parameter '");
                out.append(p.as_str());
                out.append("' for command '");
                out.append(c.as_str());
                out.append("'");
                out
            },
            CommandError::InvalidParameter(p, m) => {
                let mut out = String::from_str("Invalid parameter value for '");
                out.append(p.as_str());
                out.append("': ");
                out.append(m.as_str());
                out
            },
            CommandError::ValidationError(s) => {
                let mut out = String::from_str("Command validation failed: ");
                out.append(s.as_str());
                out
            },
            CommandError::InvalidWindowMatch(s) => {
                let mut out = String::from_str("Invalid window match specification: ");
                out.append(s.as_str());
                out
            },
            CommandError::InvalidTabMatch(s) => {
                let mut out = String::from_str("Invalid tab match specification: ");
                out.append(s.as_str());
                out
            },
            CommandError::InvalidLayout(s) => {
                let mut out = String::from_str("Invalid layout specification: ");
                out.append(s.as_str());
                out
            },
            CommandError::KittyError(c, m) => {
                let mut out = String::from_str("Kitty returned error for command '");
                out.append(c.as_str());
                out.append("': ");
                out.append(m.as_str());
                out
            },
            CommandError::ExecutionFailed(s) => {
                let mut out = String::from_str("Command execution failed with status: ");
                out.append(s.as_str());
                out
            },
            CommandError::AsyncCancelled(s) => {
                let mut out = String::from_str("Async command '");
                out.append(s.as_str());
                out.append("' was cancelled");
                out
            },
        }
    }
}

/// The description text of an encryption error.
pub open spec fn spec_encryption_error_text(e: EncryptionError) -> Seq<char> {
    match e {
        EncryptionError::NotImplemented => "Encryption not yet implemented"@,
        EncryptionError::MissingPublicKey => "KITTY_PUBLIC_KEY environment variable not set"@,
        EncryptionError::InvalidPublicKey(s) => "Failed to decode Base85 public key: "@ + s@,
        EncryptionError::PublicKeyTooShort { expected, actual } =>
            "Public key too short: expected "@ + crate::json::spec_digits(expected as int)
            + " bytes, got "@ + crate::json::spec_digits(actual as int),
        EncryptionError::EncryptionFailed(s) => "Encryption failed: "@ + s@,
        EncryptionError::DecryptionFailed(s) => "Decryption failed: "@ + s@,
        EncryptionError::InvalidPublicKeyFormat => "Invalid public key format"@,
    }
}

impl EncryptionError {
    /// The human-readable description of this error.
    pub fn to_string(&self) -> (r: String)
        ensures
            r@ == spec_encryption_error_text(*self),
    {
        match self {
            EncryptionError::NotImplemented => String::from_str(
                "Encryption not yet implemented",
            ),
            EncryptionError::MissingPublicKey => String::from_str(
                "KITTY_PUBLIC_KEY environment variable not set",
            ),
            EncryptionError::InvalidPublicKey(s) => {
                let mut out = String::from_str("Failed to decode Base85 public key: ");
                out.append(s.as_str());
                out
            },
            EncryptionError::PublicKeyTooShort { expected, actual } => {
                let mut out = String::from_str("Public key too short: expected ");
                let a = crate::json::u64_to_string(*expected as u64);
                out.append(a.as_str());
                out.append(" bytes, got ");
                let b = crate::json::u64_to_string(*actual as u64);
                out.append(b.as_str());
                out
            },
            EncryptionError::EncryptionFailed(s) => {
                let mut out = String::from_str("Encryption failed: ");
                out.append(s.as_str());
                out
            },
            EncryptionError::DecryptionFailed(s) => {
                let mut out = String::from_str("Decryption failed: ");
                out.append(s.as_str());
                out
            },
            EncryptionError::InvalidPublicKeyFormat => String::from_str(
                "Invalid public key format",
            ),
        }
    }
}

/// The description text of a connection error.
pub open spec fn spec_connection_error_text(e: ConnectionError) -> Seq<char> {
    match e {
        ConnectionError::ConnectionFailed(p, m) => "Failed to connect to socket '"@ + p@ + "': "@
            + m@,
        ConnectionError::TimeoutError(ms) => "Connection timeout after "@
            + crate::json::spec_digits(ms as int) + "ms"@,
        ConnectionError::SendError(s) => "Failed to send message: "@ + s@,
        ConnectionError::ReceiveError(s) => "Failed to receive response: "@ + s@,
        ConnectionError::ConnectionClosed => "Connection closed unexpectedly"@,
        ConnectionError::SocketNotFound(s) => "Socket path '"@ + s@ + "' does not exist"@,
        ConnectionError::PermissionDenied(s) => "Permission denied for socket '"@ + s@ + "'"@,
        ConnectionError::MaxRetriesExceeded(n) => "Maximum retry attempts ("@
            + crate::json::spec_digits(n as int) + ") exceeded"@,
    }
}

impl ConnectionError {
    /// The human-readable description of this error.
    pub fn to_string(&self) -> (r: String)
        ensures
            r@ == spec_connection_error_text(*self),
    {
        match self {
            ConnectionError::ConnectionFailed(p, m) => {
                let mut out = String::from_str("Failed to connect to socket '");
                out.append(p.as_str());
                out.append("': ");
                out.append(m.as_str());
                out
            },
            ConnectionError::TimeoutError(ms) => {
                let mut out = String::from_str("Connection timeout after ");
                let t = crate::json::u64_to_string(*ms);
                out.append(t.as_str());
                out.append("ms");
                out
            },
            ConnectionError::SendError(s) => {
                let mut out = String::from_str("Failed to send message: ");
                out.append(s.as_str());
                out
            },
            ConnectionError::ReceiveError(s) => {
                let mut out = String::from_str("Failed to receive response: ");
                out.append(s.as_str());
                out
            },
            ConnectionError::ConnectionClosed => String::from_str(
                "Connection closed unexpectedly",
            ),
            ConnectionError::SocketNotFound(s) => {
                let mut out = String::from_str("Socket path '");
                out.append(s.as_str());
                out.append("' does not exist");
                out
            },
            ConnectionError::PermissionDenied(s) => {
                let mut out = String::from_str("Permission denied for socket '");
                out.append(s.as_str());
                out.append("'");
                out
            },
            ConnectionError::MaxRetriesExceeded(n) => {
                let mut out = String::from_str("Maximum retry attempts (");
                let t = crate::json::u64_to_string(*n as u64);
                out.append(t.as_str());
                out.append(") exceeded");
                out
            },
        }
    }
}

/// The description text of a top-level error.
pub open spec fn spec_kitty_error_text(e: KittyError) -> Seq<char> {
    match e {
        KittyError::Protocol(p) => "Protocol error: "@ + spec_protocol_error_text(p),
        KittyError::Command(c) => "Command error: "@ + spec_command_error_text(c),
        KittyError::Connection(c) => "Connection error: "@ + spec_connection_error_text(c),
        KittyError::Encryption(c) => "Encryption error: "@ + spec_encryption_error_text(c),
        KittyError::Io(s) => "IO error: "@ + s@,
    }
}

impl KittyError {
    /// The human-readable description of this error.
    pub fn to_string(&self) -> (r: String)
        ensures
            r@ == spec_kitty_error_text(*self),
    {
        match self {
            KittyError::Protocol(p) => {
                let mut out = String::from_str("Protocol error: ");
                let t = p.to_string();
                out.append(t.as_str());
                out
            },
            KittyError::Command(c) => {
                let mut out = String::from_str("Command error: ");
                let t = c.to_string();
                out.append(t.as_str());
                out
            },
            KittyError::Connection(c) => {
                let mut out = String::from_str("Connection error: ");
                let t = c.to_string();
                out.append(t.as_str());
                out
            },
            KittyError::Encryption(c) => {
                let mut out = String::from_str("Encryption error: ");
                let t = c.to_string();
                out.append(t.as_str());
                out
            },
            KittyError::Io(s) => {
                let mut out = String::from_str("IO error: ");
                out.append(s.as_str());
                out
            },
        }
    }
}

impl From<ProtocolError> for KittyError {
    fn from(e: ProtocolError) -> (r: KittyError) {
        KittyError::Protocol(e)
    }
}

impl vstd::std_specs::convert::FromSpecImpl<ProtocolError> for KittyError {
    open spec fn obeys_from_spec() -> bool {
        true
    }

    open spec fn from_spec(e: ProtocolError) -> KittyError {
        KittyError::Protocol(e)
    }
}

impl From<CommandError> for KittyError {
    fn from(e: CommandError) -> (r: KittyError) {
        KittyError::Command(e)
    }
}

impl vstd::std_specs::convert::FromSpecImpl<CommandError> for KittyError {
    open spec fn obeys_from_spec() -> bool {
        true
    }

    open spec fn from_spec(e: CommandError) -> KittyError {
        KittyError::Command(e)
    }
}

impl From<ConnectionError> for KittyError {
    fn from(e: ConnectionError) -> (r: KittyError) {
        KittyError::Connection(e)
    }
}

impl vstd::std_specs::convert::FromSpecImpl<ConnectionError> for KittyError {
    open spec fn obeys_from_spec() -> bool {
        true
    }

    open spec fn from_spec(e: ConnectionError) -> KittyError {
        KittyError::Connection(e)
    }
}

impl From<EncryptionError> for KittyError {
    fn from(e: EncryptionError) -> (r: KittyError) {
        KittyError::Encryption(e)
    }
}

impl vstd::std_specs::convert::FromSpecImpl<EncryptionError> for KittyError {
    open spec fn obeys_from_spec() -> bool {
        true
    }

    open spec fn from_spec(e: EncryptionError) -> KittyError {
        KittyError::Encryption(e)
    }
}


} // verus!
