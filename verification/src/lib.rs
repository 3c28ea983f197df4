//! Client-side engine for a terminal emulator's remote-control protocol:
//! escape-sequence framing around JSON bodies, payload chunking, an
//! encrypted authentication handshake, and the connection bookkeeping
//! around a local byte-stream socket.
pub mod client;
pub mod command;
pub mod commands;
pub mod encryption;
pub mod error;
pub mod json;
pub mod keydb;
pub mod protocol;

pub use json::JsonValue;
pub use json::SpecJson;

pub use error::CommandError;
pub use error::ConnectionError;
pub use error::EncryptionError;
pub use error::KittyError;
pub use error::ProtocolError;

pub use protocol::KittyMessage;
pub use protocol::StreamIdGen;

pub use encryption::Encryptor;
pub use protocol::KittyResponse;

pub use client::KittyBuilder;
pub use client::ReceiveState;
pub use client::ReadStep;

pub use command::CommandBuilder;
pub use commands::action::ActionCommand;
pub use commands::layout::GotoLayoutCommand;
pub use commands::layout::LastUsedLayoutCommand;
pub use commands::layout::SetEnabledLayoutsCommand;
pub use commands::process::DisableLigaturesCommand;
pub use commands::process::EnvCommand;
pub use commands::process::KittenCommand;
pub use commands::process::LaunchCommand;
pub use commands::process::LoadConfigCommand;
pub use commands::process::ResizeOSWindowCommand;
pub use commands::process::RunCommand;
pub use commands::process::SetUserVarsCommand;
pub use commands::process::SignalChildCommand;
pub use commands::style::GetColorsCommand;
pub use commands::style::SetBackgroundImageCommand;
pub use commands::style::SetColorsCommand;
pub use commands::style::SetFontSizeCommand;
pub use commands::style::SetSpacingCommand;
pub use commands::style::SetTabColorCommand;
pub use commands::tab::CloseTabCommand;
pub use commands::tab::DetachTabCommand;
pub use commands::tab::FocusTabCommand;
pub use commands::tab::SetTabTitleCommand;
pub use commands::window::CloseWindowCommand;
pub use commands::window::CreateMarkerCommand;
pub use commands::window::DetachWindowCommand;
pub use commands::window::FocusWindowCommand;
pub use commands::window::GetTextCommand;
pub use commands::window::LsCommand;
pub use commands::window::NewWindowCommand;
pub use commands::window::RemoveMarkerCommand;
pub use commands::window::ResizeWindowCommand;
pub use commands::window::ScrollWindowCommand;
pub use commands::window::SelectWindowCommand;
pub use commands::window::SendKeyCommand;
pub use commands::window::SendTextCommand;
pub use commands::window::SetWindowTitleCommand;

pub use keydb::DbEntry;
pub use keydb::parse_db_entry;
pub use keydb::latest_pubkey;
