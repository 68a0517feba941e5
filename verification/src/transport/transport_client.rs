//! The datagram transport a device session talks through. The engine
//! only ever sends one request and waits for one reply, so the interface
//! is a bound socket with a mutable destination. Implementations live
//! outside the library (a UDP socket in production, a scripted double in
//! tests); nothing is assumed about what they return.

use vstd::prelude::*;
use crate::error::TransportError;

verus! {

/// IPv4 addresses are carried as their numeric value (`127.0.0.1` is
/// 0x7f00_0001), ports as host-order integers.
pub trait TransportClient where Self: Sized {
    /// Binds a transport from the source address to the destination,
    /// with the read and write timeouts the engine expects.
    fn bind(src_ip: u32, dst_ip: u32, dst_port: u16) -> Result<Self, TransportError>;

    /// Sends one datagram to the current destination.
    fn send(&mut self, data: &Vec<u8>) -> Result<usize, TransportError>;

    /// Receives one datagram.
    fn receive(&mut self) -> Result<Vec<u8>, TransportError>;

    /// Changes the destination for subsequent sends.
    fn update_dest(&mut self, dst_ip: u32, dst_port: u16) -> Result<(), TransportError>;

    /// The current destination address and port.
    fn get_dst_conn_details(&self) -> Result<(u32, u16), TransportError>;

    /// Pauses before the engine retries a lookup or a not-ready read.
    fn wait_before_retry(&mut self);

    /// A textual description of the transport for logging.
    fn debug(&self) -> String;
}

} // verus!
