//! The driver lifecycle adapter: registration with the host bus and the
//! probe/remove transitions between it and a driver implementation.
//!
//! The host serializes probe and remove for one device and never invokes
//! probe twice without an intervening remove; the adapter relies on that
//! and holds no lock. Host calls themselves (registration, callback
//! dispatch, handle storage) happen outside this crate: the caller performs
//! them and hands their outcomes in, and stores the opaque handle a
//! successful probe returns.

use vstd::prelude::*;

use crate::device::{Device, DeviceView};
use crate::error::Error;
use crate::handle::OpaqueHandle;
use crate::ident::{resolve_table, IdTable, IdTableEntry};
use crate::resource::RawResource;

verus! {

/// The hook a driver's data value supplies for unconditional finalization
/// after remove.
pub trait DeviceRemoval {
    /// Releases whatever the data still holds. Runs after the driver's
    /// remove hook, whether or not that hook reported a failure.
    fn device_remove(&self);
}

/// A platform driver: what a concrete driver must supply to be run by the
/// lifecycle adapter.
pub trait Driver {
    /// Data stored on the device by the driver between probe and remove,
    /// carried by the host as an opaque handle.
    type Data: DeviceRemoval;

    /// Side-data type of the identifier table entries.
    type IdInfo;

    /// Driver probe. Called when a matched device is added or discovered;
    /// initializes the device and produces the data to store on it.
    fn probe(dev: &mut Device, id_info: Option<&Self::IdInfo>) -> Result<Self::Data, Error>;

    /// Driver remove. Called when the device is removed; prepares it for
    /// complete removal. Defaults to a no-op success.
    fn remove(_data: &Self::Data) -> Result<(), Error> {
        Ok(())
    }
}

/// The mathematical model of an [`Adapter`].
pub ghost struct AdapterView<I> {
    /// Whether the driver is currently registered with the host.
    pub registered: bool,
    /// The registered driver name.
    pub name: Seq<u8>,
    /// The attached identifier table, if the driver declared one.
    pub table: Option<Seq<IdTableEntry<I>>>,
}

/// The identifier table as the adapter records it.
pub open spec fn opt_table_view<I>(t: Option<IdTable<I>>) -> Option<Seq<IdTableEntry<I>>> {
    match t {
        Some(table) => Some(table@),
        None => None,
    }
}

/// What identifier resolution yields for a device under this adapter:
/// nothing when the driver declared no table, otherwise the side-data of
/// the first table entry matching the device's compatible string.
pub open spec fn spec_id_info<I>(a: AdapterView<I>, d: DeviceView) -> Option<I> {
    match a.table {
        Some(entries) => resolve_table(entries, d.compatible),
        None => None,
    }
}

/// Orchestrates one driver's lifecycle: registration state, the attached
/// identifier table, and the probe/remove transitions.
pub struct Adapter<T: Driver> {
    registered: bool,
    name: Vec<u8>,
    table: Option<IdTable<T::IdInfo>>,
}

impl<T: Driver> View for Adapter<T> {
    type V = AdapterView<T::IdInfo>;

    closed spec fn view(&self) -> AdapterView<T::IdInfo> {
        AdapterView { registered: self.registered, name: self.name@, table: opt_table_view(self.table) }
    }
}

impl<T: Driver> Adapter<T> {
    /// A fresh, unregistered adapter.
    pub fn new() -> (a: Adapter<T>)
        ensures
            a@ == (AdapterView::<T::IdInfo> {
                registered: false,
                name: Seq::<u8>::empty(),
                table: None,
            }),
    {
        Adapter { registered: false, name: Vec::new(), table: None }
    }

    /// Returns whether the driver is currently registered.
    pub fn is_registered(&self) -> (r: bool)
        ensures
            r == self@.registered,
    {
        self.registered
    }

    /// Registers the driver with the host bus: installs the probe/remove
    /// callbacks, attaches the identifier table if present, and asks the
    /// host to register. The caller performs the host call; `host_reply`
    /// is its verdict. On refusal the adapter is left as it was and the
    /// host's error code is wrapped into [`Error::HostRejected`]; on
    /// success the driver stays registered until [`Adapter::unregister`].
    pub fn register(
        &mut self,
        name: Vec<u8>,
        id_table: Option<IdTable<T::IdInfo>>,
        host_reply: Result<(), i32>,
    ) -> (r: Result<(), Error>)
        requires
            !old(self)@.registered,
        ensures
            host_reply is Ok ==> r == Ok::<(), Error>(()) && final(self)@ == (
            AdapterView::<T::IdInfo> {
                registered: true,
                name: name@,
                table: opt_table_view(id_table),
            }),
            (host_reply matches Err(code) ==> r == Err::<(), Error>(Error::HostRejected(code))
                && final(self)@ == old(self)@),
    {
        match host_reply {
            Ok(_) => {
                self.registered = true;
                self.name = name;
                self.table = id_table;
                Ok(())
            },
            Err(code) => Err(Error::HostRejected(code)),
        }
    }

    /// Unregisters the driver. After this returns, the host invokes no
    /// further probe or remove callback for it.
    pub fn unregister(&mut self)
        requires
            old(self)@.registered,
        ensures
            final(self)@ == (AdapterView { registered: false, ..old(self)@ }),
    {
        self.registered = false;
    }

    /// Resolves the identifier side-data for `dev`: nothing when no table
    /// was attached (such drivers match by other means and proceed
    /// unconditionally), otherwise the first matching entry's side-data.
    /// Never allocates or copies, only borrows.
    pub fn get_id_info(&self, dev: &Device) -> (r: Option<&T::IdInfo>)
        ensures
            r is Some <==> spec_id_info(self@, dev@) is Some,
            r matches Some(info) ==> spec_id_info(self@, dev@) == Some(*info),
    {
        match &self.table {
            Some(table) => table.lookup(dev.compatible()),
            None => None,
        }
    }

    /// The probe transition. Builds the per-callback [`Device`] wrapper
    /// from the host-supplied values, resolves the identifier side-data,
    /// and invokes the driver's probe. On success the driver's data is
    /// relinquished into an opaque handle, returned for the host to store
    /// on the device record. On failure the driver's error propagates
    /// unchanged and no handle exists — nothing is stored unless probe
    /// fully succeeds.
    ///
    /// The contract ties the result to the driver's probe: an error is one
    /// the driver's probe itself returned, and a handle wraps exactly the
    /// data some probe call produced.
    pub fn probe_callback(
        &self,
        id: i32,
        compatible: Vec<u8>,
        resources: Vec<RawResource>,
    ) -> (r: Result<OpaqueHandle<T::Data>, Error>)
        requires
            self@.registered,
        ensures
            (r matches Err(e) ==> exists|args: (&mut Device, Option<&T::IdInfo>)|
                call_ensures(T::probe, args, Err::<T::Data, Error>(e))),
            (r matches Ok(h) ==> exists|args: (&mut Device, Option<&T::IdInfo>), d: T::Data|
                call_ensures(T::probe, args, Ok::<T::Data, Error>(d)) && h@ == d),
    {
        let mut dev = Device::new(id, compatible, resources);
        let info = self.get_id_info(&dev);
        let data = match T::probe(&mut dev, info) {
            Ok(data) => data,
            Err(e) => {
                return Err(e);
            },
        };
        Ok(OpaqueHandle::into_handle(data))
    }

    /// The remove transition. Reclaims the driver's data from the opaque
    /// handle the host stored at probe time — consuming the handle, so a
    /// second reclaim cannot be written — invokes the driver's remove hook,
    /// and then always runs the data's finalization hook, even when the
    /// remove hook failed. The hook's outcome is returned for one
    /// best-effort report; the host remove path has no failure channel, so
    /// it is never escalated.
    ///
    /// The contract ties the report to the remove hook's own outcome on
    /// the reclaimed data, and records that the finalization hook was
    /// invoked on it.
    pub fn remove_callback(&self, handle: OpaqueHandle<T::Data>) -> (report: Result<(), Error>)
        requires
            self@.registered,
        ensures
            call_ensures(T::remove, (&handle@,), report),
            call_ensures(<T::Data as DeviceRemoval>::device_remove, (&handle@,), ()),
    {
        let data = handle.from_handle();
        let report = T::remove(&data);
        data.device_remove();
        report
    }
}

} // verus!
