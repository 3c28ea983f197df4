//! The per-command builders: pure data shaping for each fixed command of
//! the remote-control protocol.
pub mod action;
pub mod layout;
pub mod process;
pub mod style;
pub mod tab;
pub mod window;
