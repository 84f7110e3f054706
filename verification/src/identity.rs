//! Device identity: what makes two records the same device.
//!
//! Two records describe the same physical device exactly when they agree on
//! the vendor id, the product id and the serial number, where a missing
//! serial number counts as the serial number `unknown`. Names and platform
//! handles play no part. Two devices of one model that expose no serial
//! number therefore share one identity; this is a known limit of the scheme.

use crate::device_info::{DeviceRecord, DeviceRecordView, UsbDeviceInfo, UsbDeviceInfoView};
use crate::text::text_of;
use vstd::prelude::*;

verus! {

/// The identity of a device, as a mathematical value.
pub struct IdentityKey {
    pub vendor_id: Seq<char>,
    pub product_id: Seq<char>,
    pub serial: Seq<char>,
}

/// The serial number that identifies a device: its own, or `unknown` where it
/// has none.
pub open spec fn serial_or_unknown(serial_number: Option<Seq<char>>) -> Seq<char> {
    match serial_number {
        Some(serial) => serial,
        None => "unknown"@,
    }
}

impl DeviceRecordView {
    /// The identity of the device this record describes.
    pub open spec fn key(self) -> IdentityKey {
        IdentityKey {
            vendor_id: self.vendor_id,
            product_id: self.product_id,
            serial: serial_or_unknown(self.serial_number),
        }
    }

    /// Whether the record identifies a device at all: a record whose vendor
    /// id and product id are both `0000` does not.
    pub open spec fn has_identity(self) -> bool {
        !(self.vendor_id == "0000"@ && self.product_id == "0000"@)
    }
}

impl UsbDeviceInfoView {
    /// The identity of the device this event is about.
    pub open spec fn key(self) -> IdentityKey {
        self.record().key()
    }
}

/// The identity of a device, derived from a record of it.
#[derive(Debug, PartialEq, Eq, Hash)]
pub struct DeviceIdentityKey {
    pub vendor_id: String,
    pub product_id: String,
    pub serial: String,
}

impl View for DeviceIdentityKey {
    type V = IdentityKey;

    open spec fn view(&self) -> IdentityKey {
        IdentityKey {
            vendor_id: self.vendor_id@,
            product_id: self.product_id@,
            serial: self.serial@,
        }
    }
}

impl Clone for DeviceIdentityKey {
    fn clone(&self) -> (r: Self)
        ensures
            r@ == self@,
    {
        DeviceIdentityKey {
            vendor_id: self.vendor_id.clone(),
            product_id: self.product_id.clone(),
            serial: self.serial.clone(),
        }
    }
}

impl DeviceIdentityKey {
    /// Whether two keys name the same device.
    pub fn same_as(&self, other: &DeviceIdentityKey) -> (r: bool)
        ensures
            r == (self@ == other@),
    {
        self.vendor_id == other.vendor_id && self.product_id == other.product_id && self.serial
            == other.serial
    }
}

/// Builds the key from the three parts of a record that identify a device.
fn key_from_parts(vendor_id: &String, product_id: &String, serial_number: &Option<String>) -> (r:
    DeviceIdentityKey)
    ensures
        r@ == (IdentityKey {
            vendor_id: vendor_id@,
            product_id: product_id@,
            serial: serial_or_unknown(text_of(*serial_number)),
        }),
{
    let serial = match serial_number {
        Some(serial) => serial.clone(),
        None => String::from_str("unknown"),
    };
    DeviceIdentityKey { vendor_id: vendor_id.clone(), product_id: product_id.clone(), serial }
}

impl DeviceRecord {
    /// Whether the device this record describes has the identity `key`.
    pub fn has_key(&self, key: &DeviceIdentityKey) -> (r: bool)
        ensures
            r == (self@.key() == key@),
    {
        if self.vendor_id == key.vendor_id && self.product_id == key.product_id {
            match &self.serial_number {
                Some(serial) => *serial == key.serial,
                None => key.serial == String::from_str("unknown"),
            }
        } else {
            false
        }
    }

    /// The identity of the device this record describes.
    pub fn identity_key(&self) -> (r: DeviceIdentityKey)
        ensures
            r@ == self@.key(),
    {
        key_from_parts(&self.vendor_id, &self.product_id, &self.serial_number)
    }

    /// Whether the record identifies a device: false exactly when the vendor
    /// id and the product id are both `0000`.
    pub fn has_identity(&self) -> (r: bool)
        ensures
            r == self@.has_identity(),
    {
        let zeros = String::from_str("0000");
        !(self.vendor_id == zeros && self.product_id == zeros)
    }

    /// Whether `self` and `other` describe the same device.
    pub fn same_device(&self, other: &DeviceRecord) -> (r: bool)
        ensures
            r == (self@.key() == other@.key()),
    {
        self.has_key(&other.identity_key())
    }
}

impl UsbDeviceInfo {
    /// The identity of the device this event is about.
    pub fn identity_key(&self) -> (r: DeviceIdentityKey)
        ensures
            r@ == self@.key(),
    {
        key_from_parts(&self.vendor_id, &self.product_id, &self.serial_number)
    }
}

/// Identity is the triple of vendor id, product id and serial number, with
/// `unknown` standing for a missing serial number, and nothing else: two
/// records have the same key exactly when they agree on these three.
pub proof fn identity_is_vendor_product_serial(a: DeviceRecordView, b: DeviceRecordView)
    ensures
        a.key() == b.key() <==> a.vendor_id == b.vendor_id && a.product_id == b.product_id
            && serial_or_unknown(a.serial_number) == serial_or_unknown(b.serial_number),
{
}

/// Records that differ only in their name or their platform handle describe
/// the same device.
pub proof fn identity_ignores_name_and_handle(a: DeviceRecordView, b: DeviceRecordView)
    requires
        a.vendor_id == b.vendor_id,
        a.product_id == b.product_id,
        a.serial_number == b.serial_number,
    ensures
        a.key() == b.key(),
{
}

} // verus!
