//! USB device records and the events made from them.
//!
//! A [`DeviceRecord`] is one attached device as a single enumeration saw it.
//! A [`UsbDeviceInfo`] is a record together with the kind of event it reports
//! and the time at which the event was issued.

use crate::clock::{current_time, format_time, formatted_time, Timestamp};
use crate::text::text_of;
use vstd::prelude::*;

verus! {

/// Platform-specific reference to a device, for consumers that want to open
/// it. It never takes part in deciding which device a record describes.
#[derive(Debug, PartialEq, Eq)]
pub enum DeviceHandle {
    /// Linux: the device's directory in sysfs, and its device node if known.
    Linux { sysfs_path: String, device_node: Option<String> },
    /// Windows: the device instance id, and its interface path if known.
    Windows { instance_id: String, interface_path: Option<String> },
    /// macOS: the device's id in the I/O registry.
    Macos { device_id: String },
    /// No handle is available.
    Unknown,
}

/// The mathematical value of a [`DeviceHandle`].
pub enum DeviceHandleView {
    Linux { sysfs_path: Seq<char>, device_node: Option<Seq<char>> },
    Windows { instance_id: Seq<char>, interface_path: Option<Seq<char>> },
    Macos { device_id: Seq<char> },
    Unknown,
}

impl View for DeviceHandle {
    type V = DeviceHandleView;

    open spec fn view(&self) -> DeviceHandleView {
        match *self {
            DeviceHandle::Linux { sysfs_path, device_node } => DeviceHandleView::Linux {
                sysfs_path: sysfs_path@,
                device_node: text_of(device_node),
            },
            DeviceHandle::Windows { instance_id, interface_path } => DeviceHandleView::Windows {
                instance_id: instance_id@,
                interface_path: text_of(interface_path),
            },
            DeviceHandle::Macos { device_id } => DeviceHandleView::Macos { device_id: device_id@ },
            DeviceHandle::Unknown => DeviceHandleView::Unknown,
        }
    }
}

/// Copies an optional string.
pub(crate) fn clone_text(s: &Option<String>) -> (r: Option<String>)
    ensures
        text_of(r) == text_of(*s),
{
    match s {
        Some(s) => Some(s.clone()),
        None => None,
    }
}

impl Clone for DeviceHandle {
    fn clone(&self) -> (r: Self)
        ensures
            r@ == self@,
    {
        match self {
            DeviceHandle::Linux { sysfs_path, device_node } => DeviceHandle::Linux {
                sysfs_path: sysfs_path.clone(),
                device_node: clone_text(device_node),
            },
            DeviceHandle::Windows { instance_id, interface_path } => DeviceHandle::Windows {
                instance_id: instance_id.clone(),
                interface_path: clone_text(interface_path),
            },
            DeviceHandle::Macos { device_id } => DeviceHandle::Macos {
                device_id: device_id.clone(),
            },
            DeviceHandle::Unknown => DeviceHandle::Unknown,
        }
    }
}

impl Default for DeviceHandle {
    fn default() -> (r: Self)
        ensures
            r@ == DeviceHandleView::Unknown,
    {
        DeviceHandle::Unknown
    }
}

/// Access to the platform-specific handle of a device.
pub trait AsDeviceHandle {
    /// The handle this value carries.
    spec fn handle(&self) -> DeviceHandleView;

    /// Returns the platform-specific device handle.
    fn as_device_handle(&self) -> (handle: &DeviceHandle)
        ensures
            handle@ == self.handle(),
    ;

    /// Returns true if this device has a handle other than
    /// [`DeviceHandle::Unknown`].
    fn has_device_handle(&self) -> (r: bool)
        ensures
            r == !(self.handle() is Unknown),
    {
        match self.as_device_handle() {
            DeviceHandle::Unknown => false,
            _ => true,
        }
    }
}

/// The kinds of event a watcher issues.
#[derive(Debug, Clone, Copy, PartialEq, Eq, Structural)]
pub enum DeviceEventType {
    /// Device was connected to the system.
    Connected,
    /// Device was disconnected from the system.
    Disconnected,
}

impl DeviceEventType {
    /// The name of the kind, as consumers display it.
    pub open spec fn name(self) -> Seq<char> {
        match self {
            DeviceEventType::Connected => "Connected"@,
            DeviceEventType::Disconnected => "Disconnected"@,
        }
    }

    /// The name of the kind in capitals, as the plain log line shows it.
    pub open spec fn capitals(self) -> Seq<char> {
        match self {
            DeviceEventType::Connected => "CONNECTED"@,
            DeviceEventType::Disconnected => "DISCONNECTED"@,
        }
    }

    /// Returns the name of the kind: `Connected` or `Disconnected`.
    pub fn label(&self) -> (r: &'static str)
        ensures
            r@ == self.name(),
    {
        match self {
            DeviceEventType::Connected => "Connected",
            DeviceEventType::Disconnected => "Disconnected",
        }
    }
}

/// One attached device as seen in a single snapshot.
#[derive(Debug, PartialEq, Eq)]
pub struct DeviceRecord {
    /// Human-readable name of the device.
    pub device_name: String,
    /// USB vendor id in hexadecimal (e.g. "1d6b").
    pub vendor_id: String,
    /// USB product id in hexadecimal (e.g. "0002").
    pub product_id: String,
    /// Serial number, where the platform exposes one.
    pub serial_number: Option<String>,
    /// Platform-specific handle for advanced operations.
    pub device_handle: DeviceHandle,
}

/// The mathematical value of a [`DeviceRecord`].
pub struct DeviceRecordView {
    pub device_name: Seq<char>,
    pub vendor_id: Seq<char>,
    pub product_id: Seq<char>,
    pub serial_number: Option<Seq<char>>,
    pub device_handle: DeviceHandleView,
}

impl View for DeviceRecord {
    type V = DeviceRecordView;

    open spec fn view(&self) -> DeviceRecordView {
        DeviceRecordView {
            device_name: self.device_name@,
            vendor_id: self.vendor_id@,
            product_id: self.product_id@,
            serial_number: text_of(self.serial_number),
            device_handle: self.device_handle@,
        }
    }
}

impl Clone for DeviceRecord {
    fn clone(&self) -> (r: Self)
        ensures
            r@ == self@,
    {
        DeviceRecord {
            device_name: self.device_name.clone(),
            vendor_id: self.vendor_id.clone(),
            product_id: self.product_id.clone(),
            serial_number: clone_text(&self.serial_number),
            device_handle: self.device_handle.clone(),
        }
    }
}

impl DeviceRecord {
    /// Creates a record without a platform handle.
    pub fn new(
        device_name: String,
        vendor_id: String,
        product_id: String,
        serial_number: Option<String>,
    ) -> (r: Self)
        ensures
            r@ == (DeviceRecordView {
                device_name: device_name@,
                vendor_id: vendor_id@,
                product_id: product_id@,
                serial_number: text_of(serial_number),
                device_handle: DeviceHandleView::Unknown,
            }),
    {
        DeviceRecord {
            device_name,
            vendor_id,
            product_id,
            serial_number,
            device_handle: DeviceHandle::Unknown,
        }
    }
}

impl AsDeviceHandle for DeviceRecord {
    open spec fn handle(&self) -> DeviceHandleView {
        self@.device_handle
    }

    fn as_device_handle(&self) -> (handle: &DeviceHandle) {
        &self.device_handle
    }
}

/// Information about a USB device and the event that concerns it.
#[derive(Debug, PartialEq, Eq)]
pub struct UsbDeviceInfo {
    /// Human-readable name of the device.
    pub device_name: String,
    /// USB vendor id in hexadecimal (e.g. "1d6b").
    pub vendor_id: String,
    /// USB product id in hexadecimal (e.g. "0002").
    pub product_id: String,
    /// Serial number, where the platform exposes one.
    pub serial_number: Option<String>,
    /// When the event was issued.
    pub timestamp: Timestamp,
    /// Kind of event (connected or disconnected).
    pub event_type: DeviceEventType,
    /// Platform-specific handle for advanced operations.
    pub device_handle: DeviceHandle,
}

/// The mathematical value of a [`UsbDeviceInfo`].
pub struct UsbDeviceInfoView {
    pub device_name: Seq<char>,
    pub vendor_id: Seq<char>,
    pub product_id: Seq<char>,
    pub serial_number: Option<Seq<char>>,
    pub timestamp: Timestamp,
    pub event_type: DeviceEventType,
    pub device_handle: DeviceHandleView,
}

impl UsbDeviceInfoView {
    /// The device this event is about.
    pub open spec fn record(self) -> DeviceRecordView {
        DeviceRecordView {
            device_name: self.device_name,
            vendor_id: self.vendor_id,
            product_id: self.product_id,
            serial_number: self.serial_number,
            device_handle: self.device_handle,
        }
    }
}

impl DeviceRecordView {
    /// The event of kind `event_type` about this device, issued at
    /// `timestamp`.
    pub open spec fn event(
        self,
        event_type: DeviceEventType,
        timestamp: Timestamp,
    ) -> UsbDeviceInfoView {
        UsbDeviceInfoView {
            device_name: self.device_name,
            vendor_id: self.vendor_id,
            product_id: self.product_id,
            serial_number: self.serial_number,
            timestamp,
            event_type,
            device_handle: self.device_handle,
        }
    }
}

impl View for UsbDeviceInfo {
    type V = UsbDeviceInfoView;

    open spec fn view(&self) -> UsbDeviceInfoView {
        UsbDeviceInfoView {
            device_name: self.device_name@,
            vendor_id: self.vendor_id@,
            product_id: self.product_id@,
            serial_number: text_of(self.serial_number),
            timestamp: self.timestamp,
            event_type: self.event_type,
            device_handle: self.device_handle@,
        }
    }
}

impl Clone for UsbDeviceInfo {
    fn clone(&self) -> (r: Self)
        ensures
            r@ == self@,
    {
        UsbDeviceInfo {
            device_name: self.device_name.clone(),
            vendor_id: self.vendor_id.clone(),
            product_id: self.product_id.clone(),
            serial_number: clone_text(&self.serial_number),
            timestamp: self.timestamp,
            event_type: self.event_type,
            device_handle: self.device_handle.clone(),
        }
    }
}

/// The pattern under which the plain log line shows the time of an event.
pub open spec fn plain_time_pattern() -> Seq<char> {
    "%Y-%m-%d %H:%M:%S UTC"@
}

/// The part of the plain log line that shows the serial number.
pub open spec fn serial_suffix(serial_number: Option<Seq<char>>) -> Seq<char> {
    match serial_number {
        Some(serial) => " Serial: "@ + serial,
        None => Seq::empty(),
    }
}

/// The plain log line of `event`, where `time` is the text of its timestamp.
pub open spec fn plain_line(event: UsbDeviceInfoView, time: Seq<char>) -> Seq<char> {
    "["@ + time + "] "@ + event.event_type.capitals() + " - "@ + event.device_name + " (VID: "@
        + event.vendor_id + ", PID: "@ + event.product_id + ")"@ + serial_suffix(
        event.serial_number,
    )
}

impl UsbDeviceInfo {
    /// Creates an event about `record`, issued at `timestamp`.
    pub fn from_record(record: DeviceRecord, event_type: DeviceEventType, timestamp: Timestamp) -> (r:
        Self)
        ensures
            r@ == record@.event(event_type, timestamp),
    {
        UsbDeviceInfo {
            device_name: record.device_name,
            vendor_id: record.vendor_id,
            product_id: record.product_id,
            serial_number: record.serial_number,
            timestamp,
            event_type,
            device_handle: record.device_handle,
        }
    }

    /// Creates a new USB device information record.
    ///
    /// The timestamp is read from the system clock; the device handle is
    /// [`DeviceHandle::Unknown`].
    pub fn new(
        device_name: String,
        vendor_id: String,
        product_id: String,
        serial_number: Option<String>,
        event_type: DeviceEventType,
    ) -> (r: Self)
        ensures
            r@ == (UsbDeviceInfoView {
                device_name: device_name@,
                vendor_id: vendor_id@,
                product_id: product_id@,
                serial_number: text_of(serial_number),
                timestamp: r.timestamp,
                event_type,
                device_handle: DeviceHandleView::Unknown,
            }),
    {
        let record = DeviceRecord::new(device_name, vendor_id, product_id, serial_number);
        UsbDeviceInfo::from_record(record, event_type, current_time())
    }

    /// Creates a new USB device information record with a device handle.
    ///
    /// The timestamp is read from the system clock.
    pub fn with_handle(
        device_name: String,
        vendor_id: String,
        product_id: String,
        serial_number: Option<String>,
        event_type: DeviceEventType,
        device_handle: DeviceHandle,
    ) -> (r: Self)
        ensures
            r@ == (UsbDeviceInfoView {
                device_name: device_name@,
                vendor_id: vendor_id@,
                product_id: product_id@,
                serial_number: text_of(serial_number),
                timestamp: r.timestamp,
                event_type,
                device_handle: device_handle@,
            }),
    {
        UsbDeviceInfo {
            device_name,
            vendor_id,
            product_id,
            serial_number,
            timestamp: current_time(),
            event_type,
            device_handle,
        }
    }

    /// The device this event is about.
    pub fn record(&self) -> (r: DeviceRecord)
        ensures
            r@ == self@.record(),
    {
        DeviceRecord {
            device_name: self.device_name.clone(),
            vendor_id: self.vendor_id.clone(),
            product_id: self.product_id.clone(),
            serial_number: clone_text(&self.serial_number),
            device_handle: self.device_handle.clone(),
        }
    }

    /// Formats the event as a human-readable line, given the text of its
    /// timestamp:
    /// `[<time>] CONNECTED - <name> (VID: <vid>, PID: <pid>) Serial: <serial>`,
    /// where the last part is left out for a device without a serial number.
    pub fn format_plain_with(&self, time: &str) -> (line: String)
        ensures
            line@ == plain_line(self@, time@),
    {
        let mut line = String::from_str("[");
        line.append(time);
        line.append("] ");
        match self.event_type {
            DeviceEventType::Connected => line.append("CONNECTED"),
            DeviceEventType::Disconnected => line.append("DISCONNECTED"),
        }
        line.append(" - ");
        line.append(self.device_name.as_str());
        line.append(" (VID: ");
        line.append(self.vendor_id.as_str());
        line.append(", PID: ");
        line.append(self.product_id.as_str());
        line.append(")");
        if let Some(serial) = &self.serial_number {
            line.append(" Serial: ");
            line.append(serial.as_str());
        }
        line
    }

    /// Formats the event as a human-readable line, with its timestamp shown
    /// as `YYYY-MM-DD HH:MM:SS UTC`. Returns `None` where the timestamp lies
    /// outside the range of times that can be shown.
    pub fn format_plain(&self) -> (line: Option<String>)
        ensures
            text_of(line) == match formatted_time(
                self.timestamp.secs,
                self.timestamp.nanos,
                plain_time_pattern(),
            ) {
                Some(time) => Some(plain_line(self@, time)),
                None => None,
            },
    {
        match format_time(self.timestamp, "%Y-%m-%d %H:%M:%S UTC") {
            Some(time) => Some(self.format_plain_with(time.as_str())),
            None => None,
        }
    }
}

impl AsDeviceHandle for UsbDeviceInfo {
    open spec fn handle(&self) -> DeviceHandleView {
        self@.device_handle
    }

    fn as_device_handle(&self) -> (handle: &DeviceHandle) {
        &self.device_handle
    }
}

} // verus!
