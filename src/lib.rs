//! Outbound HTTPS for the command line: a sender that shares one lazily built
//! client, an optional extra trust anchor read from a PEM file, and the
//! translation of what the transport reports into a plain response value.

pub mod client;
pub mod message;
pub mod sender;
pub mod slot;
