//! The opaque handle that carries driver-owned data across the host's
//! probe-to-remove boundary.
//!
//! Relinquishing a value into a handle and reclaiming it back are an
//! explicit ownership-transfer pair: the handle is the only owner in
//! between, reclaiming consumes the handle, and the type has no way to
//! duplicate it — so exactly one reclaim can follow each relinquish, and a
//! second reclaim attempt cannot even be written.

use vstd::prelude::*;

verus! {

/// A host-opaque token owning one driver-produced value. The host stores
/// the token on its device record between probe and remove without
/// interpreting it.
pub struct OpaqueHandle<T> {
    value: T,
}

impl<T> View for OpaqueHandle<T> {
    type V = T;

    closed spec fn view(&self) -> T {
        self.value
    }
}

impl<T> OpaqueHandle<T> {
    /// Relinquishes ownership of `value` to a fresh handle.
    pub fn into_handle(value: T) -> (h: OpaqueHandle<T>)
        ensures
            h@ == value,
    {
        OpaqueHandle { value }
    }

    /// Reclaims the owned value, consuming the handle. Round trip: the
    /// value that was relinquished comes back unchanged.
    pub fn from_handle(self) -> (value: T)
        ensures
            value == self@,
    {
        self.value
    }
}

/// The per-device storage cell of the host device record, as the host
/// contract describes it: a successful probe stores exactly one handle
/// into an empty slot, and remove takes it back exactly once. Taking from
/// an empty slot — the host bug of a second remove without an intervening
/// probe — violates [`DrvdataSlot::take`]'s precondition: Verus rejects
/// any verified caller that could do it, and it is never a silent success.
pub struct DrvdataSlot<T> {
    inner: Option<OpaqueHandle<T>>,
}

impl<T> View for DrvdataSlot<T> {
    type V = Option<T>;

    closed spec fn view(&self) -> Option<T> {
        match self.inner {
            Some(h) => Some(h@),
            None => None,
        }
    }
}

impl<T> DrvdataSlot<T> {
    /// The slot of a device never probed, or just removed: empty.
    pub fn empty() -> (s: DrvdataSlot<T>)
        ensures
            s@ is None,
    {
        DrvdataSlot { inner: None }
    }

    /// Returns whether a handle is currently stored.
    pub fn is_occupied(&self) -> (r: bool)
        ensures
            r == (self@ is Some),
    {
        self.inner.is_some()
    }

    /// Stores the handle a successful probe returned. The slot must be
    /// empty: the host never probes a device twice without an intervening
    /// remove.
    pub fn store(&mut self, handle: OpaqueHandle<T>)
        requires
            old(self)@ is None,
        ensures
            final(self)@ == Some(handle@),
    {
        self.inner = Some(handle);
    }

    /// Takes the stored handle back for remove, leaving the slot empty —
    /// so exactly one reclaim can follow each store.
    pub fn take(&mut self) -> (h: OpaqueHandle<T>)
        requires
            old(self)@ is Some,
        ensures
            h@ == old(self)@->0,
            final(self)@ is None,
    {
        match self.inner.take() {
            Some(h) => h,
            None => vstd::pervasive::unreached(),
        }
    }
}

} // verus!
