use usbwatch::collector::EventCollector;
use usbwatch::{
    is_supported, platform_info, AsDeviceHandle, DeviceEventType, DeviceHandle, DeviceRecord,
    Platform, Timestamp, UsbDeviceInfo,
};

fn event(name: &str) -> UsbDeviceInfo {
    UsbDeviceInfo::from_record(
        DeviceRecord::new(name.to_string(), "0001".to_string(), "0002".to_string(), None),
        DeviceEventType::Connected,
        Timestamp { secs: 1, nanos: 2 },
    )
}

#[test]
fn linux_and_windows_are_supported() {
    assert!(is_supported(Platform::Linux));
    assert!(is_supported(Platform::Windows));
    assert!(!is_supported(Platform::Macos));
    assert!(!is_supported(Platform::Other));
}

#[test]
fn platforms_name_their_mechanism() {
    assert_eq!(platform_info(Platform::Linux), "Linux sysfs (/sys/bus/usb/devices)");
    assert_eq!(platform_info(Platform::Windows), "Windows Win32 Device Installation APIs");
    assert_eq!(platform_info(Platform::Macos), "Unsupported platform");
    assert_eq!(platform_info(Platform::Other), "Unsupported platform");
}

#[test]
fn unknown_handle_is_no_handle() {
    let mut record =
        DeviceRecord::new("d".to_string(), "0001".to_string(), "0002".to_string(), None);
    assert_eq!(record.as_device_handle(), &DeviceHandle::Unknown);
    assert!(!record.has_device_handle());
    record.device_handle = DeviceHandle::Windows {
        instance_id: "USB\\VID_0001&PID_0002\\5&1".to_string(),
        interface_path: None,
    };
    assert!(record.has_device_handle());

    let mut e = event("d");
    assert!(!e.has_device_handle());
    e.device_handle = DeviceHandle::Macos { device_id: "12".to_string() };
    assert!(e.has_device_handle());
    assert_eq!(e.as_device_handle(), &DeviceHandle::Macos { device_id: "12".to_string() });
}

#[test]
fn default_handle_is_unknown() {
    assert_eq!(DeviceHandle::default(), DeviceHandle::Unknown);
}

#[test]
fn clones_are_equal() {
    let handle = DeviceHandle::Linux {
        sysfs_path: "/sys/bus/usb/devices/1-1".to_string(),
        device_node: Some("/dev/ttyUSB0".to_string()),
    };
    assert_eq!(handle.clone(), handle);
    let mut e = event("d");
    e.serial_number = Some("s".to_string());
    e.device_handle = handle;
    assert_eq!(e.clone(), e);
    assert_eq!(e.record().clone(), e.record());
    assert_eq!(e.identity_key().clone(), e.identity_key());
}

#[test]
fn collector_gathers_until_the_channel_closes() {
    let mut collector = EventCollector::new();
    assert!(collector.receive(Some(event("a"))));
    assert!(collector.receive(Some(event("b"))));
    assert!(!collector.receive(None));
    assert!(!collector.receive(Some(event("late"))));
    assert_eq!(collector.into_events(), vec![event("a"), event("b")]);
}

#[test]
fn collector_gathers_until_the_deadline() {
    let mut collector = EventCollector::new();
    assert!(collector.receive(Some(event("a"))));
    collector.deadline();
    assert!(!collector.receive(Some(event("late"))));
    assert!(!collector.receive(None));
    assert_eq!(collector.into_events(), vec![event("a")]);
}

#[test]
fn collector_may_gather_nothing() {
    let mut collector = EventCollector::new();
    collector.deadline();
    assert_eq!(collector.into_events(), vec![]);
}

#[test]
fn library_names_itself() {
    assert_eq!(usbwatch::NAME, "usbwatch");
    assert_eq!(usbwatch::VERSION, "0.1.0");
    assert_eq!(usbwatch::DESCRIPTION, "A cross-platform USB device monitor");
}
