//! The per-device session layer: the device handle with its counters and
//! discovered identity, and the status words every HART response carries.

pub mod metadata;
pub mod pnio_device;
pub mod spec_comm_status;
pub mod spec_status;
