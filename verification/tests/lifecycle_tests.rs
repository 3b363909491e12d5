use std::cell::Cell;
use std::rc::Rc;

use platdev::device::Device;
use platdev::error::Error;
use platdev::handle::{DrvdataSlot, OpaqueHandle};
use platdev::ident::{DeviceId, IdTable, IdTableEntry};
use platdev::lifecycle::{Adapter, DeviceRemoval, Driver};
use platdev::resource::{IoResource, RawResource, IORESOURCE_MEM};

struct ChipData {
    start: u64,
    info: Option<u32>,
}

impl DeviceRemoval for ChipData {
    fn device_remove(&self) {}
}

struct ChipDriver;

impl Driver for ChipDriver {
    type Data = ChipData;
    type IdInfo = u32;

    fn probe(dev: &mut Device, id_info: Option<&u32>) -> Result<ChipData, Error> {
        let res = dev.get_resource(IoResource::Mem, 0)?;
        Ok(ChipData { start: res.start(), info: id_info.copied() })
    }
}

struct FailingDriver;

impl Driver for FailingDriver {
    type Data = ChipData;
    type IdInfo = u32;

    fn probe(_dev: &mut Device, _id_info: Option<&u32>) -> Result<ChipData, Error> {
        Err(Error::DriverError)
    }
}

struct SpyData {
    finalized: Rc<Cell<bool>>,
    remove_fails: bool,
}

impl DeviceRemoval for SpyData {
    fn device_remove(&self) {
        self.finalized.set(true);
    }
}

struct SpyDriver;

impl Driver for SpyDriver {
    type Data = SpyData;
    type IdInfo = u32;

    fn probe(_dev: &mut Device, _id_info: Option<&u32>) -> Result<SpyData, Error> {
        Err(Error::DriverError)
    }

    fn remove(data: &SpyData) -> Result<(), Error> {
        if data.remove_fails {
            Err(Error::DriverError)
        } else {
            Ok(())
        }
    }
}

fn chip_table() -> IdTable<u32> {
    IdTable {
        entries: vec![IdTableEntry {
            id: DeviceId { compatible: b"vendor,chip-a".to_vec() },
            info: Some(0x99),
        }],
    }
}

fn mem_resources() -> Vec<RawResource> {
    vec![RawResource { start: 0x1000, end: 0x1fff, flags: IORESOURCE_MEM }]
}

fn registered<T: Driver>(table: Option<IdTable<T::IdInfo>>) -> Adapter<T> {
    let mut adapter = Adapter::<T>::new();
    adapter.register(b"chip-driver".to_vec(), table, Ok(())).unwrap();
    adapter
}

#[test]
fn register_follows_host_verdict() {
    let mut adapter = Adapter::<ChipDriver>::new();
    assert!(!adapter.is_registered());
    let refused = adapter.register(b"chip-driver".to_vec(), None, Err(-22));
    assert_eq!(refused.unwrap_err(), Error::HostRejected(-22));
    assert!(!adapter.is_registered());
    // the refusal left everything as it was: registering again may proceed
    assert!(adapter.register(b"chip-driver".to_vec(), None, Ok(())).is_ok());
    assert!(adapter.is_registered());
}

#[test]
fn unregister_ends_the_registration() {
    let mut adapter = registered::<ChipDriver>(None);
    assert!(adapter.is_registered());
    adapter.unregister();
    assert!(!adapter.is_registered());
}

#[test]
fn probe_hands_driver_the_resolved_side_data() {
    let adapter = registered::<ChipDriver>(Some(chip_table()));
    let r = adapter.probe_callback(1, b"vendor,chip-a".to_vec(), mem_resources());
    let handle = match r {
        Ok(handle) => handle,
        Err(_) => panic!("probe failed"),
    };
    let data = handle.from_handle();
    assert_eq!(data.start, 0x1000);
    assert_eq!(data.info, Some(0x99));
}

#[test]
fn probe_without_table_passes_no_side_data() {
    let adapter = registered::<ChipDriver>(None);
    let r = adapter.probe_callback(1, b"vendor,chip-a".to_vec(), mem_resources());
    let data = match r {
        Ok(handle) => handle.from_handle(),
        Err(_) => panic!("probe failed"),
    };
    assert_eq!(data.info, None);
}

#[test]
fn probe_claim_failure_propagates() {
    let adapter = registered::<ChipDriver>(Some(chip_table()));
    // the device declares no memory resource, so the driver's claim fails
    let r = adapter.probe_callback(1, b"vendor,chip-a".to_vec(), Vec::new());
    match r {
        Ok(_) => panic!("probe unexpectedly succeeded"),
        Err(e) => assert_eq!(e, Error::NotFound),
    }
}

#[test]
fn successful_probe_stores_exactly_one_handle() {
    let adapter = registered::<ChipDriver>(Some(chip_table()));
    // the test plays the host: it stores the handle a successful probe
    // returns in the device record's slot
    let mut slot: DrvdataSlot<ChipData> = DrvdataSlot::empty();
    let mut stores: u32 = 0;
    match adapter.probe_callback(1, b"vendor,chip-a".to_vec(), mem_resources()) {
        Ok(handle) => {
            slot.store(handle);
            stores += 1;
        },
        Err(_) => {},
    }
    assert_eq!(stores, 1);
    assert!(slot.is_occupied());
    // remove: exactly one reclaim is possible
    let handle = slot.take();
    assert!(adapter.remove_callback(handle).is_ok());
    // a second reclaim attempt (a host bug) finds the slot empty: taking
    // again would violate the slot's contract, and the handle type itself
    // cannot be duplicated
    assert!(!slot.is_occupied());
}

#[test]
fn failed_probe_stores_nothing() {
    let adapter = registered::<FailingDriver>(Some(chip_table()));
    // host-side spy: count every store
    let mut slot: DrvdataSlot<ChipData> = DrvdataSlot::empty();
    let mut stores: u32 = 0;
    match adapter.probe_callback(1, b"vendor,chip-a".to_vec(), mem_resources()) {
        Ok(handle) => {
            slot.store(handle);
            stores += 1;
        },
        Err(e) => assert_eq!(e, Error::DriverError),
    }
    assert_eq!(stores, 0);
    assert!(!slot.is_occupied());
}

#[test]
fn default_remove_hook_is_a_noop_success() {
    let adapter = registered::<ChipDriver>(None);
    let handle = OpaqueHandle::into_handle(ChipData { start: 0, info: None });
    assert!(adapter.remove_callback(handle).is_ok());
}

#[test]
fn finalizer_runs_even_when_the_remove_hook_fails() {
    let adapter = registered::<SpyDriver>(None);
    let finalized = Rc::new(Cell::new(false));
    let handle = OpaqueHandle::into_handle(SpyData {
        finalized: finalized.clone(),
        remove_fails: true,
    });
    let report = adapter.remove_callback(handle);
    // the hook's failure is surfaced once, to the caller's discretion
    assert_eq!(report.unwrap_err(), Error::DriverError);
    // and teardown still completed
    assert!(finalized.get());
}

#[test]
fn slot_round_trip_returns_the_stored_handle() {
    let mut slot: DrvdataSlot<ChipData> = DrvdataSlot::empty();
    assert!(!slot.is_occupied());
    slot.store(OpaqueHandle::into_handle(ChipData { start: 1, info: None }));
    assert!(slot.is_occupied());
    let data = slot.take().from_handle();
    assert_eq!(data.start, 1);
    assert!(!slot.is_occupied());
}

#[test]
fn remove_reclaims_the_relinquished_value() {
    let handle = OpaqueHandle::into_handle(ChipData { start: 0xabcd, info: Some(3) });
    let data = handle.from_handle();
    assert_eq!(data.start, 0xabcd);
    assert_eq!(data.info, Some(3));
}
