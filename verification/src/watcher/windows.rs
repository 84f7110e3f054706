//! The Windows snapshot source: what an enumeration of the USB device class
//! makes of the properties it read.
//!
//! Calling the device installation interface is the caller's part. It hands
//! over, for each device, the text of the properties and of the instance id
//! it could read; cleaning them, parsing the hardware id and deciding which
//! records are kept is done here.

use crate::device_info::{DeviceHandle, DeviceHandleView, DeviceRecord, DeviceRecordView};
use crate::table::record_views;
use crate::text::{
    chars_of,
    find,
    first_match,
    first_match_is_leftmost,
    length_without_trailing,
    position_of,
    slice_of,
    text_of,
    text_or,
    unwrap_or_text,
    without_trailing,
};
use crate::watcher::{PollLoop, WatcherState};
use vstd::prelude::*;

verus! {

/// The properties read for one device, as the platform filled them in. A
/// property is `None` where the platform offered none.
#[derive(Debug, PartialEq, Eq)]
pub struct DeviceProperties {
    /// The device description.
    pub description: Option<String>,
    /// The hardware id, such as `USB\VID_046D&PID_C52B&REV_1200`.
    pub hardware_id: Option<String>,
    /// The name of the physical device object, used as the serial number.
    pub object_name: Option<String>,
    /// The device instance id, such as `USB\VID_046D&PID_C52B\5&2F4C0D1&0&3`.
    pub instance_id: Option<String>,
}

/// The mathematical value of [`DeviceProperties`].
pub struct DevicePropertiesView {
    pub description: Option<Seq<char>>,
    pub hardware_id: Option<Seq<char>>,
    pub object_name: Option<Seq<char>>,
    pub instance_id: Option<Seq<char>>,
}

impl View for DeviceProperties {
    type V = DevicePropertiesView;

    open spec fn view(&self) -> DevicePropertiesView {
        DevicePropertiesView {
            description: text_of(self.description),
            hardware_id: text_of(self.hardware_id),
            object_name: text_of(self.object_name),
            instance_id: text_of(self.instance_id),
        }
    }
}

/// The mathematical values of a sequence of property sets.
pub open spec fn properties_views(devices: Seq<DeviceProperties>) -> Seq<DevicePropertiesView> {
    Seq::new(devices.len(), |i: int| devices[i]@)
}

/// The value of a property: its text without the NUL characters at its end,
/// or nothing where the property is missing or holds nothing else.
pub open spec fn property_value(raw: Option<Seq<char>>) -> Option<Seq<char>> {
    match raw {
        Some(text) => if without_trailing(text, '\0').len() > 0 {
            Some(without_trailing(text, '\0'))
        } else {
            None
        },
        None => None,
    }
}

/// Where the id that follows a marker ends: at the first `&`, or, where there
/// is none, at the first NUL character.
pub open spec fn id_end(rest: Seq<char>) -> Option<int> {
    match rest.index_of_first('&') {
        Some(end) => Some(end),
        None => rest.index_of_first('\0'),
    }
}

/// The id that `hardware_id` gives after `marker`: the four characters that
/// follow the first occurrence of the marker. It is `0000` where the marker
/// does not occur, where the id ends before its fourth character, and where
/// fewer than four characters follow the marker.
pub open spec fn id_after(hardware_id: Seq<char>, marker: Seq<char>) -> Seq<char> {
    match first_match(hardware_id, marker) {
        None => "0000"@,
        Some(at) => {
            let rest = hardware_id.skip(at + marker.len());
            match id_end(rest) {
                Some(end) => if end >= 4 {
                    rest.take(4)
                } else {
                    "0000"@
                },
                None => if rest.len() >= 4 {
                    rest.take(4)
                } else {
                    "0000"@
                },
            }
        },
    }
}

/// The handle of the device with the instance id `instance_id`: the id, or
/// no handle where the platform gave none.
pub open spec fn instance_handle(instance_id: Option<Seq<char>>) -> DeviceHandleView {
    match property_value(instance_id) {
        Some(id) => DeviceHandleView::Windows { instance_id: id, interface_path: None },
        None => DeviceHandleView::Unknown,
    }
}

/// The record of the device with the properties `properties`. A missing
/// description reads `Unknown Device`; the vendor and product ids come from
/// the hardware id, the handle from the instance id.
pub open spec fn described_device(properties: DevicePropertiesView) -> DeviceRecordView {
    let hardware_id = text_or(property_value(properties.hardware_id), Seq::empty());
    DeviceRecordView {
        device_name: text_or(property_value(properties.description), "Unknown Device"@),
        vendor_id: id_after(hardware_id, "VID_"@),
        product_id: id_after(hardware_id, "PID_"@),
        serial_number: property_value(properties.object_name),
        device_handle: instance_handle(properties.instance_id),
    }
}

/// The snapshot that an enumeration of `devices` yields: their records, in
/// order, without those that identify no device.
pub open spec fn enumerated(devices: Seq<DevicePropertiesView>) -> Seq<DeviceRecordView>
    decreases devices.len(),
{
    if devices.len() == 0 {
        Seq::empty()
    } else {
        let earlier = enumerated(devices.drop_last());
        let last = described_device(devices.last());
        if last.has_identity() {
            earlier.push(last)
        } else {
            earlier
        }
    }
}

/// Reads the id that follows `marker` in `hardware_id`.
fn parse_id(hardware_id: &str, chars: &Vec<char>, marker: &str) -> (id: String)
    requires
        chars@ == hardware_id@,
    ensures
        id@ == id_after(hardware_id@, marker@),
{
    let marker_chars = chars_of(marker);
    match find(chars, &marker_chars) {
        None => String::from_str("0000"),
        Some(at) => {
            proof {
                first_match_is_leftmost(chars@, marker_chars@);
                assert(at + marker_chars.len() <= chars.len());
            }
            let start = at + marker_chars.len();
            let ghost rest = chars@.skip(start as int);
            proof {
                rest.index_of_first_ensures('&');
                rest.index_of_first_ensures('\0');
            }
            let end = match position_of(chars, start, '&') {
                Some(end) => Some(end),
                None => position_of(chars, start, '\0'),
            };
            let complete = match end {
                Some(end) => end >= 4,
                None => chars.len() - start >= 4,
            };
            if complete {
                slice_of(hardware_id, start, start + 4)
            } else {
                String::from_str("0000")
            }
        },
    }
}

/// The watcher for Windows.
#[derive(Debug)]
pub struct WindowsUsbWatcher {
    /// The poll loop that the enumerations feed.
    pub poll: PollLoop,
}

impl WindowsUsbWatcher {
    /// A watcher whose poll loop runs and knows no device yet.
    pub fn new() -> (r: Self)
        ensures
            r.poll.state() == WatcherState::Running,
            r.poll.known() == Seq::<DeviceRecordView>::empty(),
    {
        WindowsUsbWatcher { poll: PollLoop::new() }
    }

    /// Takes the value out of the text of a property.
    pub fn get_device_property(raw: &Option<String>) -> (value: Option<String>)
        ensures
            text_of(value) == property_value(text_of(*raw)),
    {
        match raw {
            Some(text) => {
                let chars = chars_of(text.as_str());
                let end = length_without_trailing(&chars, '\0');
                if end > 0 {
                    Some(slice_of(text.as_str(), 0, end))
                } else {
                    None
                }
            },
            None => None,
        }
    }

    /// Parses the vendor id and the product id out of a hardware id such as
    /// `USB\VID_046D&PID_C52B&REV_1200`: the four characters after `VID_` and
    /// after `PID_`, each `0000` where it is absent or malformed.
    pub fn parse_vid_pid(hardware_id: &str) -> (ids: (String, String))
        ensures
            ids.0@ == id_after(hardware_id@, "VID_"@),
            ids.1@ == id_after(hardware_id@, "PID_"@),
    {
        let chars = chars_of(hardware_id);
        let vendor_id = parse_id(hardware_id, &chars, "VID_");
        let product_id = parse_id(hardware_id, &chars, "PID_");
        (vendor_id, product_id)
    }

    /// Makes the record of the device with the properties `properties`.
    pub fn get_device_info(properties: &DeviceProperties) -> (record: DeviceRecord)
        ensures
            record@ == described_device(properties@),
    {
        let device_name = unwrap_or_text(
            Self::get_device_property(&properties.description),
            "Unknown Device",
        );
        let hardware_id = unwrap_or_text(Self::get_device_property(&properties.hardware_id), "");
        proof {
            reveal_strlit("");
            assert(""@ =~= Seq::<char>::empty());
        }
        let (vendor_id, product_id) = Self::parse_vid_pid(hardware_id.as_str());
        let serial_number = Self::get_device_property(&properties.object_name);
        let device_handle = match Self::get_device_property(&properties.instance_id) {
            Some(instance_id) => DeviceHandle::Windows { instance_id, interface_path: None },
            None => DeviceHandle::Unknown,
        };
        DeviceRecord { device_name, vendor_id, product_id, serial_number, device_handle }
    }

    /// Makes the snapshot out of the properties of the enumerated devices.
    pub fn scan_usb_devices(devices: &Vec<DeviceProperties>) -> (records: Vec<DeviceRecord>)
        ensures
            record_views(records@) == enumerated(properties_views(devices@)),
    {
        let ghost views = properties_views(devices@);
        let mut records: Vec<DeviceRecord> = Vec::new();
        let mut i: usize = 0;
        while i < devices.len()
            invariant
                i <= devices.len(),
                views == properties_views(devices@),
                record_views(records@) == enumerated(views.take(i as int)),
            decreases devices.len() - i,
        {
            assert(views.take(i + 1).drop_last() =~= views.take(i as int));
            let record = Self::get_device_info(&devices[i]);
            if record.has_identity() {
                records.push(record);
            }
            i += 1;
        }
        assert(views.take(devices.len() as int) =~= views);
        records
    }
}

/// No record of an enumeration has the vendor id and the product id `0000`
/// at once.
pub proof fn enumerated_devices_have_identity(devices: Seq<DevicePropertiesView>)
    ensures
        forall|i: int|
            0 <= i < enumerated(devices).len() ==> (#[trigger] enumerated(devices)[i]).has_identity(),
    decreases devices.len(),
{
    if devices.len() > 0 {
        let all = enumerated(devices);
        let earlier = enumerated(devices.drop_last());
        enumerated_devices_have_identity(devices.drop_last());
        assert forall|i: int| 0 <= i < all.len() implies (#[trigger] all[i]).has_identity() by {
            if i < earlier.len() {
                assert(all[i] == earlier[i]);
            }
        }
    }
}

} // verus!
