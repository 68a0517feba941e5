//! The transport capability the engine is abstracted over.

pub mod transport_client;
