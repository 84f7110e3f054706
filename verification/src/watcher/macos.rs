//! The macOS snapshot source: what an enumeration of the I/O registry makes
//! of the services it matched.
//!
//! Walking the registry is the caller's part. It hands over, for each USB
//! device service, the name it could read and the id of the registry entry.
//! Vendor id, product id and serial number are not read on this platform:
//! every record carries the vendor and product id `unknown` and no serial
//! number, so all devices share one identity here.

use crate::device_info::{DeviceHandle, DeviceHandleView, DeviceRecord, DeviceRecordView};
use crate::table::record_views;
use crate::text::{decimal, decimal_text, text_of, text_or, unwrap_or_text};
use crate::watcher::{PollLoop, WatcherState};
use vstd::prelude::*;

verus! {

/// One USB device service of the I/O registry.
#[derive(Debug, PartialEq, Eq)]
pub struct RegistryEntry {
    /// The name of the entry; `None` where the registry gave none.
    pub name: Option<String>,
    /// The id of the entry in the registry.
    pub registry_id: u32,
}

/// The mathematical value of a [`RegistryEntry`].
pub struct RegistryEntryView {
    pub name: Option<Seq<char>>,
    pub registry_id: u32,
}

impl View for RegistryEntry {
    type V = RegistryEntryView;

    open spec fn view(&self) -> RegistryEntryView {
        RegistryEntryView { name: text_of(self.name), registry_id: self.registry_id }
    }
}

/// The mathematical values of a sequence of registry entries.
pub open spec fn registry_views(services: Seq<RegistryEntry>) -> Seq<RegistryEntryView> {
    Seq::new(services.len(), |i: int| services[i]@)
}

/// The record of the device behind `service`. A missing name reads
/// `Unknown USB Device`; the handle is the registry id as a decimal numeral.
pub open spec fn registered_device(service: RegistryEntryView) -> DeviceRecordView {
    DeviceRecordView {
        device_name: text_or(service.name, "Unknown USB Device"@),
        vendor_id: "unknown"@,
        product_id: "unknown"@,
        serial_number: None,
        device_handle: DeviceHandleView::Macos { device_id: decimal(service.registry_id as nat) },
    }
}

/// The snapshot that an enumeration of `services` yields: their records, in
/// order, without those that identify no device.
pub open spec fn registered(services: Seq<RegistryEntryView>) -> Seq<DeviceRecordView>
    decreases services.len(),
{
    if services.len() == 0 {
        Seq::empty()
    } else {
        let earlier = registered(services.drop_last());
        let last = registered_device(services.last());
        if last.has_identity() {
            earlier.push(last)
        } else {
            earlier
        }
    }
}

/// The watcher for macOS.
#[derive(Debug)]
pub struct MacosUsbWatcher {
    /// The poll loop that the enumerations feed.
    pub poll: PollLoop,
}

impl MacosUsbWatcher {
    /// A watcher whose poll loop runs and knows no device yet.
    pub fn new() -> (r: Self)
        ensures
            r.poll.state() == WatcherState::Running,
            r.poll.known() == Seq::<DeviceRecordView>::empty(),
    {
        MacosUsbWatcher { poll: PollLoop::new() }
    }

    /// Makes the record of the device behind `service`.
    pub fn device_from_service(service: &RegistryEntry) -> (record: DeviceRecord)
        ensures
            record@ == registered_device(service@),
    {
        let name = match &service.name {
            Some(name) => Some(name.clone()),
            None => None,
        };
        DeviceRecord {
            device_name: unwrap_or_text(name, "Unknown USB Device"),
            vendor_id: String::from_str("unknown"),
            product_id: String::from_str("unknown"),
            serial_number: None,
            device_handle: DeviceHandle::Macos { device_id: decimal_text(service.registry_id) },
        }
    }

    /// Makes the snapshot out of the matched services.
    pub fn scan_usb_devices(services: &Vec<RegistryEntry>) -> (records: Vec<DeviceRecord>)
        ensures
            record_views(records@) == registered(registry_views(services@)),
    {
        let ghost views = registry_views(services@);
        let mut records: Vec<DeviceRecord> = Vec::new();
        let mut i: usize = 0;
        while i < services.len()
            invariant
                i <= services.len(),
                views == registry_views(services@),
                record_views(records@) == registered(views.take(i as int)),
            decreases services.len() - i,
        {
            assert(views.take(i + 1).drop_last() =~= views.take(i as int));
            let record = Self::device_from_service(&services[i]);
            if record.has_identity() {
                records.push(record);
            }
            i += 1;
        }
        assert(views.take(services.len() as int) =~= views);
        records
    }
}

/// No record of an enumeration has the vendor id and the product id `0000`
/// at once.
pub proof fn registered_devices_have_identity(services: Seq<RegistryEntryView>)
    ensures
        forall|i: int|
            0 <= i < registered(services).len() ==> (#[trigger] registered(
                services,
            )[i]).has_identity(),
    decreases services.len(),
{
    if services.len() > 0 {
        let all = registered(services);
        let earlier = registered(services.drop_last());
        registered_devices_have_identity(services.drop_last());
        assert forall|i: int| 0 <= i < all.len() implies (#[trigger] all[i]).has_identity() by {
            if i < earlier.len() {
                assert(all[i] == earlier[i]);
            }
        }
    }
}

} // verus!
