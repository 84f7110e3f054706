use usbwatch::watcher::POLL_INTERVAL_SECS;
use usbwatch::{
    create_watcher, DeviceEventType, DeviceIdentityKey, DeviceRecord, EnumerationError,
    Platform, PollAction, PollLoop, Timestamp, UsbDeviceInfo, UsbWatcher, WatchError,
};

fn record(name: &str, vendor: &str, product: &str, serial: Option<&str>) -> DeviceRecord {
    DeviceRecord::new(
        name.to_string(),
        vendor.to_string(),
        product.to_string(),
        serial.map(|s| s.to_string()),
    )
}

fn at(secs: i64) -> Timestamp {
    Timestamp { secs, nanos: 0 }
}

fn emitted(action: PollAction) -> Vec<UsbDeviceInfo> {
    match action {
        PollAction::Emit(events) => events,
        other => panic!("expected events, got {:?}", other),
    }
}

fn summary(events: &[UsbDeviceInfo]) -> Vec<(DeviceEventType, String)> {
    events.iter().map(|e| (e.event_type, e.device_name.clone())).collect()
}

#[test]
fn new_loop_runs_and_knows_nothing() {
    let poll = PollLoop::new();
    assert!(poll.is_running());
    assert!(poll.known_devices().is_empty());
}

#[test]
fn first_cycle_connects_every_device() {
    let mut poll = PollLoop::new();
    let events = emitted(poll.poll_cycle_at(
        Ok(vec![record("a", "0001", "0001", None), record("b", "0002", "0002", None)]),
        at(10),
    ));
    assert_eq!(
        summary(&events),
        vec![
            (DeviceEventType::Connected, "a".to_string()),
            (DeviceEventType::Connected, "b".to_string())
        ]
    );
    assert_eq!(poll.known_devices().len(), 2);
}

#[test]
fn connected_events_come_before_disconnected_events() {
    let mut poll = PollLoop::new();
    emitted(poll.poll_cycle_at(
        Ok(vec![record("old1", "0001", "0001", None), record("old2", "0002", "0002", None)]),
        at(10),
    ));
    let events = emitted(poll.poll_cycle_at(
        Ok(vec![record("new1", "0003", "0003", None), record("new2", "0004", "0004", None)]),
        at(12),
    ));
    assert_eq!(
        summary(&events),
        vec![
            (DeviceEventType::Connected, "new1".to_string()),
            (DeviceEventType::Connected, "new2".to_string()),
            (DeviceEventType::Disconnected, "old1".to_string()),
            (DeviceEventType::Disconnected, "old2".to_string()),
        ]
    );
    assert!(events.iter().all(|e| e.timestamp == at(12)));
    assert_eq!(
        poll.known_devices().records(),
        vec![record("new1", "0003", "0003", None), record("new2", "0004", "0004", None)]
    );
}

#[test]
fn failed_enumeration_keeps_the_table_and_loses_no_event() {
    let mut poll = PollLoop::new();
    emitted(poll.poll_cycle_at(
        Ok(vec![record("stays", "0001", "0001", None), record("leaves", "0002", "0002", None)]),
        at(10),
    ));
    let before = poll.known_devices().records();

    let action = poll.poll_cycle_at(Err(EnumerationError::RootMissing), at(12));
    assert_eq!(action, PollAction::Warn(EnumerationError::RootMissing));
    assert!(poll.is_running());
    assert_eq!(poll.known_devices().records(), before);

    let events = emitted(poll.poll_cycle_at(
        Ok(vec![record("stays", "0001", "0001", None), record("arrives", "0003", "0003", None)]),
        at(14),
    ));
    assert_eq!(
        summary(&events),
        vec![
            (DeviceEventType::Connected, "arrives".to_string()),
            (DeviceEventType::Disconnected, "leaves".to_string()),
        ]
    );
}

#[test]
fn failed_first_enumeration_then_success_connects_all() {
    let mut poll = PollLoop::new();
    let failure = EnumerationError::NativeCallFailed("Failed to get USB class GUID".to_string());
    let action = poll.poll_cycle_at(Err(failure), at(1));
    assert_eq!(
        action,
        PollAction::Warn(EnumerationError::NativeCallFailed(
            "Failed to get USB class GUID".to_string()
        ))
    );
    assert!(poll.known_devices().is_empty());
    let events = emitted(poll.poll_cycle_at(Ok(vec![record("a", "0001", "0001", None)]), at(3)));
    assert_eq!(summary(&events), vec![(DeviceEventType::Connected, "a".to_string())]);
}

#[test]
fn repeated_snapshot_is_silent() {
    let mut poll = PollLoop::new();
    emitted(poll.poll_cycle_at(Ok(vec![record("a", "0001", "0001", None)]), at(1)));
    let events = emitted(poll.poll_cycle_at(Ok(vec![record("a", "0001", "0001", None)]), at(3)));
    assert!(events.is_empty());
    let events =
        emitted(poll.poll_cycle_at(Ok(vec![record("renamed", "0001", "0001", None)]), at(5)));
    assert!(events.is_empty());
    assert_eq!(poll.known_devices().records(), vec![record("renamed", "0001", "0001", None)]);
}

#[test]
fn snapshot_records_without_identity_are_dropped_by_the_cycle() {
    let mut poll = PollLoop::new();
    let events = emitted(poll.poll_cycle_at(
        Ok(vec![record("ghost", "0000", "0000", None), record("a", "0001", "0001", None)]),
        at(1),
    ));
    assert_eq!(summary(&events), vec![(DeviceEventType::Connected, "a".to_string())]);
    assert_eq!(poll.known_devices().len(), 1);
}

#[test]
fn closed_channel_stops_the_loop() {
    let mut poll = PollLoop::new();
    emitted(poll.poll_cycle_at(Ok(vec![record("a", "0001", "0001", None)]), at(1)));
    poll.channel_closed();
    assert!(!poll.is_running());
    assert_eq!(poll.known_devices().len(), 1);
    let action = poll.poll_cycle_at(Ok(vec![record("b", "0002", "0002", None)]), at(3));
    assert_eq!(action, PollAction::Halt);
    assert_eq!(poll.known_devices().records(), vec![record("a", "0001", "0001", None)]);
    let action = poll.poll_cycle_at(Err(EnumerationError::RootMissing), at(5));
    assert_eq!(action, PollAction::Halt);
    assert!(!poll.is_running());
}

#[test]
fn cycle_on_the_system_clock_stamps_events_with_a_current_time() {
    let mut poll = PollLoop::new();
    let events = emitted(poll.poll_cycle(Ok(vec![record("a", "0001", "0001", None)])));
    assert_eq!(events.len(), 1);
    assert_eq!(events[0].record(), record("a", "0001", "0001", None));
    assert!(events[0].timestamp.secs > 1_000_000_000);
    assert!(events[0].timestamp.nanos < 1_000_000_000);
}

#[test]
fn poll_interval_is_two_seconds() {
    assert_eq!(POLL_INTERVAL_SECS, 2);
}

#[test]
fn watcher_exists_for_each_platform_with_an_adapter() {
    assert!(matches!(UsbWatcher::new(Platform::Linux), Ok(UsbWatcher::Linux(_))));
    assert!(matches!(UsbWatcher::new(Platform::Windows), Ok(UsbWatcher::Windows(_))));
    assert!(matches!(UsbWatcher::new(Platform::Macos), Ok(UsbWatcher::Macos(_))));
    let watcher = UsbWatcher::new(Platform::Linux).unwrap();
    assert!(watcher.is_running());
}

#[test]
fn watcher_creation_fails_without_an_adapter() {
    match UsbWatcher::new(Platform::Other) {
        Err(error) => assert_eq!(error, WatchError::PlatformUnsupported),
        Ok(_) => panic!("a watcher was created for a platform without an adapter"),
    }
    match create_watcher(Platform::Other) {
        Err(message) => assert_eq!(message, "USB monitoring not supported on this platform"),
        Ok(_) => panic!("a watcher was created for a platform without an adapter"),
    }
    assert!(create_watcher(Platform::Macos).is_ok());
}

#[test]
fn watcher_runs_cycles_of_its_poll_loop() {
    let mut watcher = UsbWatcher::new(Platform::Windows).unwrap();
    let events =
        emitted(watcher.poll_cycle_at(Ok(vec![record("a", "0001", "0001", Some("s"))]), at(9)));
    assert_eq!(summary(&events), vec![(DeviceEventType::Connected, "a".to_string())]);
    assert_eq!(
        events[0].identity_key(),
        DeviceIdentityKey {
            vendor_id: "0001".to_string(),
            product_id: "0001".to_string(),
            serial: "s".to_string()
        }
    );
    let events = emitted(watcher.poll_cycle(Ok(vec![])));
    assert_eq!(summary(&events), vec![(DeviceEventType::Disconnected, "a".to_string())]);
    watcher.channel_closed();
    assert!(!watcher.is_running());
    assert_eq!(watcher.poll_cycle(Ok(vec![])), PollAction::Halt);
}

#[test]
fn test_usbwatcher_start_monitoring() {
    let (tx, mut rx) = tokio::sync::mpsc::channel(10);
    let mut watcher = UsbWatcher::new(Platform::Linux).expect("Failed to create watcher");
    if let PollAction::Emit(events) =
        watcher.poll_cycle(Ok(vec![record("a", "0001", "0001", None)]))
    {
        for event in events {
            if tx.try_send(event).is_err() {
                watcher.channel_closed();
            }
        }
    }
    for _ in 0..5 {
        if let Ok(_event) = rx.try_recv() {
            break;
        }
    }
    assert!(watcher.is_running());
}
