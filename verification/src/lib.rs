//! A concurrent in-memory key-value server core.
//!
//! The library holds the verified logic of the server: the wire-level
//! value types ([`frame::Frame`] and [`frame::Response`]), the command
//! parser ([`command`]), the shared key-value store ([`store::Store`]),
//! and the per-connection handler state machine ([`handler`]).
//! Socket plumbing (binding, accepting, framing bytes on and off the
//! wire) lives outside the library and hands it plain values.

pub mod command;
pub mod frame;
pub mod handler;
pub mod laws;
pub mod store;
