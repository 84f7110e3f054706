use usbwatch::watcher::windows::{DeviceProperties, WindowsUsbWatcher};
use usbwatch::{AsDeviceHandle, DeviceHandle, DeviceRecord};

fn text(s: &str) -> Option<String> {
    Some(s.to_string())
}

fn ids(hardware_id: &str) -> (String, String) {
    WindowsUsbWatcher::parse_vid_pid(hardware_id)
}

fn pair(vendor: &str, product: &str) -> (String, String) {
    (vendor.to_string(), product.to_string())
}

#[test]
fn ids_follow_their_markers() {
    assert_eq!(ids("USB\\VID_046D&PID_C52B&REV_1200"), pair("046D", "C52B"));
    assert_eq!(ids("USB\\VID_1d6b&PID_0002"), pair("1d6b", "0002"));
    assert_eq!(ids("PID_0002&VID_1d6b"), pair("1d6b", "0002"));
}

#[test]
fn absent_markers_give_zeros() {
    assert_eq!(ids(""), pair("0000", "0000"));
    assert_eq!(ids("USB\\ROOT_HUB30"), pair("0000", "0000"));
    assert_eq!(ids("USB\\VID_046D"), pair("046D", "0000"));
    assert_eq!(ids("USB\\PID_C52B"), pair("0000", "C52B"));
    assert_eq!(ids("vid_046D&pid_C52B"), pair("0000", "0000"));
}

#[test]
fn short_ids_give_zeros() {
    assert_eq!(ids("VID_12&PID_3456"), pair("0000", "3456"));
    assert_eq!(ids("VID_123"), pair("0000", "0000"));
    assert_eq!(ids("VID_"), pair("0000", "0000"));
    assert_eq!(ids("VID_&PID_"), pair("0000", "0000"));
    assert_eq!(ids("VID_1234&PID_567"), pair("1234", "0000"));
}

#[test]
fn long_ids_are_cut_to_four_characters() {
    assert_eq!(ids("VID_12345&PID_67890"), pair("1234", "6789"));
    assert_eq!(ids("VID_123456789"), pair("1234", "0000"));
}

#[test]
fn nul_ends_an_id_where_no_ampersand_follows() {
    assert_eq!(ids("VID_12\0"), pair("0000", "0000"));
    assert_eq!(ids("VID_1234\0"), pair("1234", "0000"));
    assert_eq!(ids("PID_12\0456"), pair("0000", "0000"));
    assert_eq!(ids("PID_12\0456&"), pair("0000", "12\u{0}4"));
}

#[test]
fn first_marker_counts() {
    assert_eq!(ids("VID_1&VID_2345&PID_6789"), pair("0000", "6789"));
    assert_eq!(ids("VID_AAAA&VID_BBBB"), pair("AAAA", "0000"));
    assert_eq!(ids("VVID_ABCD&PPID_EF01"), pair("ABCD", "EF01"));
}

#[test]
fn ids_are_counted_in_characters() {
    assert_eq!(ids("VID_é123&PID_äöüß"), pair("é123", "äöüß"));
    assert_eq!(ids("VID_é12&PID_1234"), pair("0000", "1234"));
}

#[test]
fn property_values_lose_trailing_nuls() {
    assert_eq!(WindowsUsbWatcher::get_device_property(&text("USB Device\0\0")), text("USB Device"));
    assert_eq!(WindowsUsbWatcher::get_device_property(&text("USB\0Device\0")), text("USB\0Device"));
    assert_eq!(WindowsUsbWatcher::get_device_property(&text("plain")), text("plain"));
    assert_eq!(WindowsUsbWatcher::get_device_property(&text("\0\0")), None);
    assert_eq!(WindowsUsbWatcher::get_device_property(&text("")), None);
    assert_eq!(WindowsUsbWatcher::get_device_property(&None), None);
}

#[test]
fn device_from_properties() {
    let record = WindowsUsbWatcher::get_device_info(&DeviceProperties {
        description: text("USB Composite Device\0"),
        hardware_id: text("USB\\VID_046D&PID_C52B&REV_1200\0USB\\VID_046D&PID_C52B\0\0"),
        object_name: text("\\Device\\USBPDO-4\0"),
        instance_id: text("USB\\VID_046D&PID_C52B\\5&2F4C0D1&0&3\0"),
    });
    assert_eq!(
        record,
        DeviceRecord {
            device_name: "USB Composite Device".to_string(),
            vendor_id: "046D".to_string(),
            product_id: "C52B".to_string(),
            serial_number: text("\\Device\\USBPDO-4"),
            device_handle: DeviceHandle::Windows {
                instance_id: "USB\\VID_046D&PID_C52B\\5&2F4C0D1&0&3".to_string(),
                interface_path: None,
            },
        }
    );
    assert!(record.has_device_handle());
}

#[test]
fn device_without_instance_id_has_no_handle() {
    for instance_id in [None, text(""), text("\0\0")] {
        let record = WindowsUsbWatcher::get_device_info(&DeviceProperties {
            description: text("Mouse"),
            hardware_id: text("USB\\VID_046D&PID_C52B"),
            object_name: None,
            instance_id,
        });
        assert_eq!(record.device_handle, DeviceHandle::Unknown);
        assert!(!record.has_device_handle());
    }
}

#[test]
fn device_without_properties_gets_sentinels() {
    let record = WindowsUsbWatcher::get_device_info(&DeviceProperties {
        description: None,
        hardware_id: None,
        object_name: None,
        instance_id: None,
    });
    assert_eq!(
        record,
        DeviceRecord::new(
            "Unknown Device".to_string(),
            "0000".to_string(),
            "0000".to_string(),
            None
        )
    );
}

#[test]
fn enumeration_drops_devices_without_identity() {
    let devices = vec![
        DeviceProperties {
            description: text("Mouse"),
            hardware_id: text("USB\\VID_046D&PID_C52B"),
            object_name: None,
            instance_id: text("USB\\VID_046D&PID_C52B\\1"),
        },
        DeviceProperties {
            description: text("Hub"),
            hardware_id: text("USB\\ROOT_HUB30"),
            object_name: None,
            instance_id: text("USB\\ROOT_HUB30\\4"),
        },
        DeviceProperties {
            description: None,
            hardware_id: text("USB\\VID_0000&PID_0001"),
            object_name: text("pdo"),
            instance_id: None,
        },
    ];
    let records = WindowsUsbWatcher::scan_usb_devices(&devices);
    assert_eq!(
        records,
        vec![
            DeviceRecord {
                device_name: "Mouse".to_string(),
                vendor_id: "046D".to_string(),
                product_id: "C52B".to_string(),
                serial_number: None,
                device_handle: DeviceHandle::Windows {
                    instance_id: "USB\\VID_046D&PID_C52B\\1".to_string(),
                    interface_path: None,
                },
            },
            DeviceRecord::new(
                "Unknown Device".to_string(),
                "0000".to_string(),
                "0001".to_string(),
                text("pdo")
            ),
        ]
    );
}
