use usbwatch::logger::{format_event, format_event_with};
use usbwatch::{
    DeviceEventType, DeviceHandle, DeviceRecord, EnumerationError, Timestamp, UsbDeviceInfo,
    WatchError,
};

fn event(
    name: &str,
    serial: Option<&str>,
    event_type: DeviceEventType,
    timestamp: Timestamp,
) -> UsbDeviceInfo {
    UsbDeviceInfo {
        device_name: name.to_string(),
        vendor_id: "0781".to_string(),
        product_id: "5583".to_string(),
        serial_number: serial.map(|s| s.to_string()),
        timestamp,
        event_type,
        device_handle: DeviceHandle::Unknown,
    }
}

const JULY_27_2025: Timestamp = Timestamp { secs: 1_753_612_215, nanos: 0 };

#[test]
fn plain_line_of_a_connection() {
    let line = event("USB Storage", None, DeviceEventType::Connected, JULY_27_2025).format_plain();
    assert_eq!(
        line,
        Some("[2025-07-27 10:30:15 UTC] CONNECTED - USB Storage (VID: 0781, PID: 5583)".to_string())
    );
}

#[test]
fn plain_line_of_a_disconnection_with_serial() {
    let line = event(
        "USB Storage",
        Some("1234567890"),
        DeviceEventType::Disconnected,
        Timestamp { secs: 0, nanos: 999_999_999 },
    )
    .format_plain();
    assert_eq!(
        line,
        Some(
            "[1970-01-01 00:00:00 UTC] DISCONNECTED - USB Storage (VID: 0781, PID: 5583) Serial: 1234567890"
                .to_string()
        )
    );
}

#[test]
fn plain_line_before_the_epoch() {
    let line = event("x", None, DeviceEventType::Connected, Timestamp { secs: -1, nanos: 0 })
        .format_plain();
    assert_eq!(line, Some("[1969-12-31 23:59:59 UTC] CONNECTED - x (VID: 0781, PID: 5583)".to_string()));
}

#[test]
fn plain_line_needs_a_time_that_can_be_shown() {
    let far = Timestamp { secs: i64::MAX, nanos: 0 };
    assert_eq!(event("x", None, DeviceEventType::Connected, far).format_plain(), None);
    let early = Timestamp { secs: i64::MIN, nanos: 0 };
    assert_eq!(event("x", None, DeviceEventType::Connected, early).format_plain(), None);
    let bad_nanos = Timestamp { secs: 0, nanos: 2_000_000_000 };
    assert_eq!(event("x", None, DeviceEventType::Connected, bad_nanos).format_plain(), None);
}

#[test]
fn plain_line_with_a_given_time_text() {
    let e = event("Hub", Some(""), DeviceEventType::Connected, JULY_27_2025);
    assert_eq!(
        e.format_plain_with("now"),
        "[now] CONNECTED - Hub (VID: 0781, PID: 5583) Serial: "
    );
    let e = event("", None, DeviceEventType::Disconnected, JULY_27_2025);
    assert_eq!(e.format_plain_with(""), "[] DISCONNECTED -  (VID: 0781, PID: 5583)");
}

#[test]
fn console_line_in_colour() {
    let connected = event("Stick", Some("S1"), DeviceEventType::Connected, JULY_27_2025);
    assert_eq!(
        format_event(&connected, true),
        Some(
            "🔌 \u{1b}[32mStick | VID: 0781 PID: 5583 | Serial: S1 | Event: Connected | 2025-07-27 10:30:15 UTC"
                .to_string()
        )
    );
    let disconnected = event("Stick", None, DeviceEventType::Disconnected, JULY_27_2025);
    assert_eq!(
        format_event(&disconnected, true),
        Some(
            "❌ \u{1b}[31mStick | VID: 0781 PID: 5583 | Serial: - | Event: Disconnected | 2025-07-27 10:30:15 UTC"
                .to_string()
        )
    );
}

#[test]
fn console_line_without_colour() {
    let connected = event(
        "Stick",
        None,
        DeviceEventType::Connected,
        Timestamp { secs: 1_431_648_000, nanos: 500_000_000 },
    );
    assert_eq!(
        format_event(&connected, false),
        Some(
            "🔌 Stick | VID: 0781 PID: 5583 | Serial: - | Event: Connected | 2015-05-15 00:00:00.500 UTC"
                .to_string()
        )
    );
    assert_eq!(
        format_event_with(&connected, false, "t"),
        "🔌 Stick | VID: 0781 PID: 5583 | Serial: - | Event: Connected | t"
    );
    assert_eq!(
        format_event_with(&connected, true, "t"),
        "🔌 \u{1b}[32mStick | VID: 0781 PID: 5583 | Serial: - | Event: Connected | t"
    );
}

#[test]
fn console_line_needs_a_time_that_can_be_shown() {
    let far = event("x", None, DeviceEventType::Connected, Timestamp { secs: i64::MAX, nanos: 0 });
    assert_eq!(format_event(&far, true), None);
}

#[test]
fn event_kinds_have_labels() {
    assert_eq!(DeviceEventType::Connected.label(), "Connected");
    assert_eq!(DeviceEventType::Disconnected.label(), "Disconnected");
}

#[test]
fn new_event_is_stamped_by_the_clock() {
    let e = UsbDeviceInfo::new(
        "USB Storage Device".to_string(),
        "0781".to_string(),
        "5583".to_string(),
        Some("1234567890".to_string()),
        DeviceEventType::Connected,
    );
    assert_eq!(e.device_name, "USB Storage Device");
    assert_eq!(e.vendor_id, "0781");
    assert_eq!(e.product_id, "5583");
    assert_eq!(e.serial_number, Some("1234567890".to_string()));
    assert_eq!(e.event_type, DeviceEventType::Connected);
    assert_eq!(e.device_handle, DeviceHandle::Unknown);
    assert!(e.timestamp.secs > 1_000_000_000);
    assert!(e.timestamp.nanos < 1_000_000_000);
    assert!(e.format_plain().is_some());
}

#[test]
fn new_event_with_handle_keeps_the_handle() {
    let handle = DeviceHandle::Linux {
        sysfs_path: "/sys/bus/usb/devices/1-1".to_string(),
        device_node: Some("/dev/ttyUSB0".to_string()),
    };
    let e = UsbDeviceInfo::with_handle(
        "USB Serial".to_string(),
        "0403".to_string(),
        "6001".to_string(),
        None,
        DeviceEventType::Disconnected,
        handle.clone(),
    );
    assert_eq!(e.device_name, "USB Serial");
    assert_eq!(e.vendor_id, "0403");
    assert_eq!(e.product_id, "6001");
    assert_eq!(e.serial_number, None);
    assert_eq!(e.event_type, DeviceEventType::Disconnected);
    assert_eq!(e.device_handle, handle);
    assert!(e.timestamp.secs > 1_000_000_000);
    assert_eq!(
        e.record(),
        DeviceRecord {
            device_name: "USB Serial".to_string(),
            vendor_id: "0403".to_string(),
            product_id: "6001".to_string(),
            serial_number: None,
            device_handle: handle,
        }
    );
}

#[test]
fn enumeration_errors_describe_themselves() {
    assert_eq!(
        EnumerationError::RootMissing.message(),
        "USB devices path not found. Make sure you're running on Linux with USB support."
    );
    assert_eq!(
        EnumerationError::NativeCallFailed("Failed to get USB class GUID".to_string()).message(),
        "Failed to get USB class GUID"
    );
    assert_eq!(
        EnumerationError::PropertyReadFailed("permission denied".to_string()).message(),
        "permission denied"
    );
    assert_eq!(
        EnumerationError::PropertyReadFailed("permission denied".to_string()).warning(),
        "Error scanning USB devices: permission denied"
    );
}

#[test]
fn watch_errors_describe_themselves() {
    assert_eq!(
        WatchError::PlatformUnsupported.message(),
        "USB monitoring not supported on this platform"
    );
    assert_eq!(WatchError::ChannelClosed.message(), "channel closed");
    assert_eq!(
        WatchError::Enumeration(EnumerationError::RootMissing).message(),
        EnumerationError::RootMissing.message()
    );
}

#[test]
fn only_enumeration_failures_are_survived() {
    assert!(!WatchError::Enumeration(EnumerationError::RootMissing).is_fatal());
    assert!(!WatchError::Enumeration(EnumerationError::NativeCallFailed("x".to_string())).is_fatal());
    assert!(!WatchError::Enumeration(EnumerationError::PropertyReadFailed("x".to_string()))
        .is_fatal());
    assert!(WatchError::ChannelClosed.is_fatal());
    assert!(WatchError::PlatformUnsupported.is_fatal());
}
