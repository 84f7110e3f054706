//! Cross-platform USB device watching.
//!
//! A watcher enumerates the attached USB devices again and again. Each
//! snapshot is turned into a table keyed by device identity and compared with
//! the table of the snapshot before it; every identity that appeared becomes a
//! `Connected` event and every identity that vanished a `Disconnected` event.
//!
//! The library holds the rules: how a device is identified, how a snapshot
//! becomes a table, what a diff yields, what one cycle of the poll loop does,
//! and what each platform's enumeration makes of the raw data it read. The
//! enumeration calls themselves, the waiting and the sending are the
//! caller's.

pub mod clock;
pub mod collector;
pub mod device_info;
pub mod identity;
pub mod install;
pub mod logger;
pub mod table;
pub mod text;
pub mod watcher;

pub use crate::clock::Timestamp;
pub use crate::collector::EventCollector;
pub use crate::device_info::{
    AsDeviceHandle,
    DeviceEventType,
    DeviceHandle,
    DeviceRecord,
    UsbDeviceInfo,
};
pub use crate::identity::DeviceIdentityKey;
pub use crate::table::{diff, KnownDevices};
pub use crate::watcher::{EnumerationError, PollAction, PollLoop, UsbWatcher, WatchError, WatcherState};
use vstd::prelude::*;

verus! {

/// Library version.
pub const VERSION: &'static str = "0.1.0";

/// Library name.
pub const NAME: &'static str = "usbwatch";

/// Library description.
pub const DESCRIPTION: &'static str = "A cross-platform USB device monitor";

/// The operating systems the watcher distinguishes.
#[derive(Clone, Copy, Debug, PartialEq, Eq, Structural)]
pub enum Platform {
    Linux,
    Windows,
    Macos,
    /// Any system for which there is no adapter.
    Other,
}

/// Whether monitoring is announced as supported on `platform`.
pub open spec fn supported(platform: Platform) -> bool {
    platform == Platform::Linux || platform == Platform::Windows
}

/// Check if USB monitoring is supported on the given platform.
pub fn is_supported(platform: Platform) -> (r: bool)
    ensures
        r == supported(platform),
{
    match platform {
        Platform::Linux => true,
        Platform::Windows => true,
        _ => false,
    }
}

/// The description of the enumeration mechanism used on `platform`.
pub open spec fn platform_text(platform: Platform) -> Seq<char> {
    match platform {
        Platform::Linux => "Linux sysfs (/sys/bus/usb/devices)"@,
        Platform::Windows => "Windows Win32 Device Installation APIs"@,
        _ => "Unsupported platform"@,
    }
}

/// Describes the enumeration mechanism used on the given platform.
pub fn platform_info(platform: Platform) -> (r: &'static str)
    ensures
        r@ == platform_text(platform),
{
    match platform {
        Platform::Linux => "Linux sysfs (/sys/bus/usb/devices)",
        Platform::Windows => "Windows Win32 Device Installation APIs",
        _ => "Unsupported platform",
    }
}

/// Creates a watcher for `platform`, or says why there is none.
pub fn create_watcher(platform: Platform) -> (r: Result<UsbWatcher, String>)
    ensures
        platform == Platform::Other <==> r is Err,
        r matches Err(message) ==> message@ == WatchError::PlatformUnsupported.text(),
        r matches Ok(watcher) ==> watcher.platform() == platform && watcher.poll().state()
            == WatcherState::Running && watcher.poll().known() == Seq::<
            crate::device_info::DeviceRecordView,
        >::empty(),
{
    match UsbWatcher::new(platform) {
        Ok(watcher) => Ok(watcher),
        Err(error) => Err(error.message()),
    }
}

} // verus!
