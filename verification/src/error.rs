//! Error kinds of the library. Each operation states in its contract
//! exactly which inputs produce which error.

use vstd::prelude::*;
use crate::config::DeviceKey;

verus! {

/// A malformed, truncated, or unrecognised wire buffer.
#[derive(Debug, Clone, Copy, PartialEq, Eq, Structural)]
pub struct DecodeError;

/// A socket-level failure reported by the transport.
#[derive(Debug, Clone, Copy, PartialEq, Eq, Structural)]
pub struct TransportError;

/// A failure while talking to a device session.
#[derive(Debug, Clone, Copy, PartialEq, Eq)]
pub enum SessionError {
    /// The transport failed to send or receive.
    Transport,
    /// A reply could not be decoded.
    Decode,
    /// An IOD response carried a non-zero PNIO status.
    PnioStatus([u8; 4]),
    /// The data-ready flag was not observed within the retry budget.
    ReadNotReady,
}

/// A failure while looking a device up via the endpoint mapper.
#[derive(Debug, Clone, Copy, PartialEq, Eq, Structural)]
pub enum LookupError {
    /// The transport could not be bound, or failed to send or receive.
    Transport,
    /// A reply could not be decoded.
    Decode,
    /// No matching endpoint-mapper entry was found for this device key
    /// within the retry budget.
    Exhausted(DeviceKey),
}

/// A failure while handing a message to the sink.
#[derive(Debug, Clone, Copy, PartialEq, Eq, Structural)]
pub struct SendError;

} // verus!
