//! The wire codec: byte-exact encode and decode of the DCE/RPC v4
//! connectionless header, the endpoint-mapper request and response stubs,
//! the PNIO envelope with its AR and IOD blocks, and the HART frame.

pub mod constant;
pub mod dcerpc;
pub mod dcerpc_epm_req;
pub mod dcerpc_epm_res;
pub mod pnio;
pub mod packet;
pub mod pnio_header;
pub mod pnio_header_arblock_req;
pub mod pnio_header_arblock_res;
pub mod pnio_header_iod_req;
pub mod pnio_header_iod_res;
pub mod hart_command;
pub mod util;
pub mod wire;
