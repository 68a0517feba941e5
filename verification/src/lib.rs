//! A verified PROFINET-encapsulated HART communication engine.
//!
//! The library speaks DCE/RPC v4 connectionless over UDP to PROFINET IO
//! controllers, tunnels HART command frames as PNIO IOD read/write records,
//! and reconciles a per-device polling store against live configuration.
//! Every wire format is encoded and decoded byte-exactly, with the formats
//! stated as specification functions and the codecs proved against them.

pub mod cli;
pub mod client;
pub mod config;
pub mod device;
pub mod dto;
pub mod error;
pub mod protocol;
pub mod transport;
mod uuid_gen;
