//! The host side of the Bluetooth host controller interface: status codes and device addresses.

pub mod address;
pub mod status;
pub mod vendor;

pub use address::{to_bd_addr_type, BdAddr, BdAddrType, BdAddrTypeError, ConnectionHandle};
pub use status::{BadStatusError, Status};
