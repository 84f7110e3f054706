//! The Linux snapshot source: what a scan of the sysfs device directory makes
//! of the entries it found.
//!
//! Reading the directory and the attribute files is the caller's part. It
//! hands over each entry's name and path and the raw contents of its
//! attribute files; which entries are devices, what their records hold and
//! which records are kept is decided here.

use crate::device_info::{DeviceHandle, DeviceHandleView, DeviceRecord, DeviceRecordView};
use crate::table::record_views;
use crate::text::{
    chars_of,
    contains_char,
    count_char,
    count_of,
    slice_of,
    starts_with,
    text_of,
    text_or,
    trim_bounds,
    trimmed,
    unwrap_or_text,
};
use crate::watcher::{PollLoop, WatcherState};
use vstd::prelude::*;

verus! {

/// One entry of the device directory: its name, and the contents of its
/// attribute files as they were read. An attribute is `None` where its file
/// is missing or unreadable.
#[derive(Debug, PartialEq, Eq)]
pub struct SysfsEntry {
    /// Name of the entry, such as `1-1`, `usb1` or `1-0:1.0`.
    pub name: String,
    /// Path of the entry, such as `/sys/bus/usb/devices/1-1`.
    pub path: String,
    /// Contents of `idVendor`.
    pub id_vendor: Option<String>,
    /// Contents of `idProduct`.
    pub id_product: Option<String>,
    /// Contents of `product`.
    pub product: Option<String>,
    /// Contents of `manufacturer`.
    pub manufacturer: Option<String>,
    /// Contents of `serial`.
    pub serial: Option<String>,
}

/// The mathematical value of a [`SysfsEntry`].
pub struct SysfsEntryView {
    pub name: Seq<char>,
    pub path: Seq<char>,
    pub id_vendor: Option<Seq<char>>,
    pub id_product: Option<Seq<char>>,
    pub product: Option<Seq<char>>,
    pub manufacturer: Option<Seq<char>>,
    pub serial: Option<Seq<char>>,
}

impl View for SysfsEntry {
    type V = SysfsEntryView;

    open spec fn view(&self) -> SysfsEntryView {
        SysfsEntryView {
            name: self.name@,
            path: self.path@,
            id_vendor: text_of(self.id_vendor),
            id_product: text_of(self.id_product),
            product: text_of(self.product),
            manufacturer: text_of(self.manufacturer),
            serial: text_of(self.serial),
        }
    }
}

/// The mathematical values of a sequence of entries.
pub open spec fn entry_views(entries: Seq<SysfsEntry>) -> Seq<SysfsEntryView> {
    Seq::new(entries.len(), |i: int| entries[i]@)
}

/// What an entry of the device directory stands for.
#[derive(Clone, Copy, Debug, PartialEq, Eq, Structural)]
pub enum EntryKind {
    /// A device on a port: a name with exactly one `-` and no `:`.
    Port,
    /// A root hub: a name that begins with `usb` and holds no `:`.
    RootHub,
    /// An interface of a device: a name that holds a `:`.
    Interface,
    /// Anything else.
    Other,
}

/// The kind of the entry named `name`.
pub open spec fn entry_kind(name: Seq<char>) -> EntryKind {
    if name.contains(':') {
        EntryKind::Interface
    } else if count_of(name, '-') == 1 {
        EntryKind::Port
    } else if "usb"@.is_prefix_of(name) {
        EntryKind::RootHub
    } else {
        EntryKind::Other
    }
}

/// Whether the entry named `name` is a device: a port or a root hub.
pub open spec fn is_device_entry(name: Seq<char>) -> bool {
    entry_kind(name) == EntryKind::Port || entry_kind(name) == EntryKind::RootHub
}

/// The value of an attribute: the contents of its file without surrounding
/// white space, or nothing where the file is missing or holds nothing else.
pub open spec fn attribute_value(raw: Option<Seq<char>>) -> Option<Seq<char>> {
    match raw {
        Some(text) => if trimmed(text).len() > 0 {
            Some(trimmed(text))
        } else {
            None
        },
        None => None,
    }
}

/// The display name of a device: manufacturer and product separated by a
/// blank, or the product alone where no manufacturer is known.
pub open spec fn display_name(manufacturer: Option<Seq<char>>, product: Seq<char>) -> Seq<char> {
    match manufacturer {
        Some(manufacturer) => manufacturer + " "@ + product,
        None => product,
    }
}

/// The record of the device that `entry` describes. A missing vendor or
/// product id reads `0000`, a missing product name `Unknown Device`. The
/// handle is the path of the entry; a scan learns of no device node.
pub open spec fn parsed_device(entry: SysfsEntryView) -> DeviceRecordView {
    DeviceRecordView {
        device_name: display_name(
            attribute_value(entry.manufacturer),
            text_or(attribute_value(entry.product), "Unknown Device"@),
        ),
        vendor_id: text_or(attribute_value(entry.id_vendor), "0000"@),
        product_id: text_or(attribute_value(entry.id_product), "0000"@),
        serial_number: attribute_value(entry.serial),
        device_handle: DeviceHandleView::Linux { sysfs_path: entry.path, device_node: None },
    }
}

/// The snapshot that a scan of `entries` yields: the records of the entries
/// that are devices, in order, without those that identify no device.
pub open spec fn scanned(entries: Seq<SysfsEntryView>) -> Seq<DeviceRecordView>
    decreases entries.len(),
{
    if entries.len() == 0 {
        Seq::empty()
    } else {
        let earlier = scanned(entries.drop_last());
        let last = entries.last();
        if is_device_entry(last.name) && parsed_device(last).has_identity() {
            earlier.push(parsed_device(last))
        } else {
            earlier
        }
    }
}

/// The watcher for Linux.
#[derive(Debug)]
pub struct LinuxUsbWatcher {
    /// The poll loop that the scans feed.
    pub poll: PollLoop,
}

impl LinuxUsbWatcher {
    /// A watcher whose poll loop runs and knows no device yet.
    pub fn new() -> (r: Self)
        ensures
            r.poll.state() == WatcherState::Running,
            r.poll.known() == Seq::<DeviceRecordView>::empty(),
    {
        LinuxUsbWatcher { poll: PollLoop::new() }
    }

    /// Tells what the entry named `name` stands for.
    pub fn classify_entry(name: &str) -> (kind: EntryKind)
        ensures
            kind == entry_kind(name@),
    {
        let chars = chars_of(name);
        if contains_char(&chars, ':') {
            EntryKind::Interface
        } else if count_char(&chars, '-') == 1 {
            EntryKind::Port
        } else if starts_with(&chars, &chars_of("usb")) {
            EntryKind::RootHub
        } else {
            EntryKind::Other
        }
    }

    /// Takes the value out of the contents of an attribute file.
    pub fn read_sys_file(raw: &Option<String>) -> (value: Option<String>)
        ensures
            text_of(value) == attribute_value(text_of(*raw)),
    {
        match raw {
            Some(text) => {
                let chars = chars_of(text.as_str());
                let (start, end) = trim_bounds(&chars);
                if start < end {
                    Some(slice_of(text.as_str(), start, end))
                } else {
                    None
                }
            },
            None => None,
        }
    }

    /// Makes the record of the device that `entry` describes.
    pub fn parse_usb_device(entry: &SysfsEntry) -> (record: DeviceRecord)
        ensures
            record@ == parsed_device(entry@),
    {
        let vendor_id = unwrap_or_text(Self::read_sys_file(&entry.id_vendor), "0000");
        let product_id = unwrap_or_text(Self::read_sys_file(&entry.id_product), "0000");
        let product_name = unwrap_or_text(Self::read_sys_file(&entry.product), "Unknown Device");
        let serial_number = Self::read_sys_file(&entry.serial);
        let device_name = match Self::read_sys_file(&entry.manufacturer) {
            Some(manufacturer) => {
                let mut name = manufacturer;
                name.append(" ");
                name.append(product_name.as_str());
                name
            },
            None => product_name,
        };
        DeviceRecord {
            device_name,
            vendor_id,
            product_id,
            serial_number,
            device_handle: DeviceHandle::Linux {
                sysfs_path: entry.path.clone(),
                device_node: None,
            },
        }
    }

    /// Makes the snapshot out of the entries of the device directory.
    pub fn scan_usb_devices(entries: &Vec<SysfsEntry>) -> (devices: Vec<DeviceRecord>)
        ensures
            record_views(devices@) == scanned(entry_views(entries@)),
    {
        let ghost views = entry_views(entries@);
        let mut devices: Vec<DeviceRecord> = Vec::new();
        let mut i: usize = 0;
        while i < entries.len()
            invariant
                i <= entries.len(),
                views == entry_views(entries@),
                record_views(devices@) == scanned(views.take(i as int)),
            decreases entries.len() - i,
        {
            assert(views.take(i + 1).drop_last() =~= views.take(i as int));
            let kind = Self::classify_entry(entries[i].name.as_str());
            if kind == EntryKind::Port || kind == EntryKind::RootHub {
                let record = Self::parse_usb_device(&entries[i]);
                if record.has_identity() {
                    devices.push(record);
                }
            }
            i += 1;
        }
        assert(views.take(entries.len() as int) =~= views);
        devices
    }
}

/// No record of a scan has the vendor id and the product id `0000` at once.
pub proof fn scanned_devices_have_identity(entries: Seq<SysfsEntryView>)
    ensures
        forall|i: int|
            0 <= i < scanned(entries).len() ==> (#[trigger] scanned(entries)[i]).has_identity(),
    decreases entries.len(),
{
    if entries.len() > 0 {
        let all = scanned(entries);
        let earlier = scanned(entries.drop_last());
        scanned_devices_have_identity(entries.drop_last());
        assert forall|i: int| 0 <= i < all.len() implies (#[trigger] all[i]).has_identity() by {
            if i < earlier.len() {
                assert(all[i] == earlier[i]);
            }
        }
    }
}

} // verus!
