//! The orchestration layer: endpoint-mapper lookup, the message sink
//! capability, and the worker that reconciles and polls the device store.

pub mod lookup;
pub mod module_twin;
pub mod sender;
pub mod worker;
