//! The error taxonomy shared by every fallible operation of this crate.

use vstd::prelude::*;

verus! {

/// Why a lifecycle or resource operation failed.
#[derive(Clone, Copy, Debug, PartialEq, Eq, Structural)]
pub enum Error {
    /// The requested resource or identifier is absent.
    NotFound,
    /// The resource slot was already claimed for this device.
    AlreadyClaimed,
    /// The resource declares a malformed address range (start above end).
    InvalidRange,
    /// The resource's slot lies beyond the claim tracker's capacity.
    CapacityExceeded,
    /// A host registration or mapping call failed; carries the host's
    /// native error code.
    HostRejected(i32),
    /// An opaque, driver-defined failure surfaced from probe.
    DriverError,
}

} // verus!
