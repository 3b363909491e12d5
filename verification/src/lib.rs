//! Platform-bus device and driver lifecycle management.
//!
//! This crate models the contract between a host-managed platform bus and a
//! driver: registering the driver, matching it to a device through an
//! identifier table, tracking which hardware resource regions the driver has
//! claimed, carrying the driver's per-device data across the probe/remove
//! boundary as an opaque handle, and tearing everything down on removal.
//!
//! The host bus itself (device discovery, callback dispatch, the raw
//! resource lookup and mapping primitives) is outside this crate: callers
//! perform those host operations and hand their outcomes to the functions
//! here, which apply and verify the lifecycle rules.

pub mod claims;
pub mod device;
pub mod error;
pub mod handle;
pub mod ident;
pub mod lifecycle;
pub mod resource;
