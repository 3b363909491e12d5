use platdev::device::Device;
use platdev::error::Error;
use platdev::ident::{DeviceId, IdTable, IdTableEntry};
use platdev::lifecycle::{Adapter, DeviceRemoval, Driver};

struct NoData;

impl DeviceRemoval for NoData {
    fn device_remove(&self) {}
}

struct TableDriver;

impl Driver for TableDriver {
    type Data = NoData;
    type IdInfo = u32;

    fn probe(_dev: &mut Device, _id_info: Option<&u32>) -> Result<NoData, Error> {
        Ok(NoData)
    }
}

fn entry(compatible: &[u8], info: Option<u32>) -> IdTableEntry<u32> {
    IdTableEntry { id: DeviceId { compatible: compatible.to_vec() }, info }
}

fn device_declaring(compatible: &[u8]) -> Device {
    Device::new(0, compatible.to_vec(), Vec::new())
}

fn registered_adapter(table: Option<IdTable<u32>>) -> Adapter<TableDriver> {
    let mut adapter = Adapter::<TableDriver>::new();
    adapter.register(b"test-driver".to_vec(), table, Ok(())).unwrap();
    adapter
}

#[test]
fn resolver_returns_side_data_of_matching_entry() {
    let table = IdTable { entries: vec![entry(b"vendor,chip-a", Some(0x58))] };
    let adapter = registered_adapter(Some(table));
    let dev = device_declaring(b"vendor,chip-a");
    assert_eq!(adapter.get_id_info(&dev), Some(&0x58));
    let other = device_declaring(b"vendor,chip-b");
    assert_eq!(adapter.get_id_info(&other), None);
}

#[test]
fn resolver_without_table_returns_nothing() {
    let adapter = registered_adapter(None);
    let dev = device_declaring(b"vendor,chip-a");
    assert_eq!(adapter.get_id_info(&dev), None);
}

#[test]
fn resolver_with_empty_table_returns_nothing() {
    let table = IdTable::<u32> { entries: Vec::new() };
    let adapter = registered_adapter(Some(table));
    let dev = device_declaring(b"vendor,chip-a");
    assert_eq!(adapter.get_id_info(&dev), None);
}

#[test]
fn resolver_takes_first_of_equal_matchers() {
    let table = IdTable {
        entries: vec![entry(b"vendor,chip-a", Some(1)), entry(b"vendor,chip-a", Some(2))],
    };
    let adapter = registered_adapter(Some(table));
    let dev = device_declaring(b"vendor,chip-a");
    assert_eq!(adapter.get_id_info(&dev), Some(&1));
}

#[test]
fn resolver_stops_at_first_match_even_without_side_data() {
    let table = IdTable {
        entries: vec![entry(b"vendor,chip-a", None), entry(b"vendor,chip-a", Some(2))],
    };
    let adapter = registered_adapter(Some(table));
    let dev = device_declaring(b"vendor,chip-a");
    assert_eq!(adapter.get_id_info(&dev), None);
}

#[test]
fn resolver_distinguishes_prefixes_and_lengths() {
    let table = IdTable { entries: vec![entry(b"vendor,chip", Some(7))] };
    let adapter = registered_adapter(Some(table));
    assert_eq!(adapter.get_id_info(&device_declaring(b"vendor,chip-a")), None);
    assert_eq!(adapter.get_id_info(&device_declaring(b"vendor,chi")), None);
    assert_eq!(adapter.get_id_info(&device_declaring(b"vendor,chip")), Some(&7));
}
