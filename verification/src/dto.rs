//! The shapes of the messages handed to the sink, and the decoded
//! command-specific response fields.

pub mod iotedge_message;
pub mod temp;
