//! Vendor-specific extensions of the host controller interface.
pub mod event;
