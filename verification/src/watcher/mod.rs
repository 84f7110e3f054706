//! The poll loop: one enumeration, one diff and one batch of events per
//! cycle.
//!
//! The loop itself waits, sleeps and sends, which is the caller's business.
//! What is decided here is what each cycle does to the known-device table and
//! which events it issues. A caller drives a [`PollLoop`] by handing it the
//! outcome of each enumeration and carrying out the [`PollAction`] it gets
//! back.

pub mod linux;
pub mod macos;
pub mod windows;

use crate::clock::{current_time, Timestamp};
use crate::device_info::{
    DeviceEventType,
    DeviceRecord,
    DeviceRecordView,
    UsbDeviceInfo,
    UsbDeviceInfoView,
};
use crate::table::{
    connected_events,
    diff,
    disconnected_events,
    event_views,
    is_table,
    missing_from,
    record_views,
    snapshot_table,
    KnownDevices,
};
use crate::watcher::linux::LinuxUsbWatcher;
use crate::watcher::macos::MacosUsbWatcher;
use crate::watcher::windows::WindowsUsbWatcher;
use crate::Platform;
use vstd::prelude::*;

verus! {

/// Seconds between two enumerations. The value has no effect on which events
/// are issued for a given sequence of snapshots.
pub const POLL_INTERVAL_SECS: u64 = 2;

/// Why an enumeration failed. Every such failure is transient: the loop
/// reports it and tries again at the next cycle.
#[derive(Debug, PartialEq, Eq)]
pub enum EnumerationError {
    /// The place where the devices are listed does not exist.
    RootMissing,
    /// A call into the platform failed; the text says which.
    NativeCallFailed(String),
    /// A property of a device could not be read; the text says which.
    PropertyReadFailed(String),
}

impl EnumerationError {
    /// The text that describes the failure.
    pub open spec fn text(self) -> Seq<char> {
        match self {
            EnumerationError::RootMissing =>
                "USB devices path not found. Make sure you're running on Linux with USB support."@,
            EnumerationError::NativeCallFailed(detail) => detail@,
            EnumerationError::PropertyReadFailed(detail) => detail@,
        }
    }

    /// Describes the failure.
    pub fn message(&self) -> (r: String)
        ensures
            r@ == self.text(),
    {
        match self {
            EnumerationError::RootMissing => String::from_str(
                "USB devices path not found. Make sure you're running on Linux with USB support.",
            ),
            EnumerationError::NativeCallFailed(detail) => detail.clone(),
            EnumerationError::PropertyReadFailed(detail) => detail.clone(),
        }
    }

    /// The warning shown for the failure: `Error scanning USB devices: `
    /// followed by its description.
    pub fn warning(&self) -> (r: String)
        ensures
            r@ == "Error scanning USB devices: "@ + self.text(),
    {
        let mut warning = String::from_str("Error scanning USB devices: ");
        let message = self.message();
        warning.append(message.as_str());
        warning
    }
}

/// What can end or prevent monitoring.
#[derive(Debug, PartialEq, Eq)]
pub enum WatchError {
    /// An enumeration failed. The poll loop never stops for this.
    Enumeration(EnumerationError),
    /// The consumer closed the event channel.
    ChannelClosed,
    /// There is no adapter for the platform.
    PlatformUnsupported,
}

impl WatchError {
    /// The text that describes the error.
    pub open spec fn text(self) -> Seq<char> {
        match self {
            WatchError::Enumeration(error) => error.text(),
            WatchError::ChannelClosed => "channel closed"@,
            WatchError::PlatformUnsupported => "USB monitoring not supported on this platform"@,
        }
    }

    /// Whether the error ends monitoring. A failed enumeration never does:
    /// it is tried again at the next cycle.
    pub fn is_fatal(&self) -> (r: bool)
        ensures
            r == !(self is Enumeration),
    {
        match self {
            WatchError::Enumeration(_) => false,
            WatchError::ChannelClosed => true,
            WatchError::PlatformUnsupported => true,
        }
    }

    /// Describes the error.
    pub fn message(&self) -> (r: String)
        ensures
            r@ == self.text(),
    {
        match self {
            WatchError::Enumeration(error) => error.message(),
            WatchError::ChannelClosed => String::from_str("channel closed"),
            WatchError::PlatformUnsupported => String::from_str(
                "USB monitoring not supported on this platform",
            ),
        }
    }
}

/// The two states of a poll loop.
#[derive(Clone, Copy, Debug, PartialEq, Eq, Structural)]
pub enum WatcherState {
    /// The loop enumerates and issues events.
    Running,
    /// The event channel was closed; the loop does nothing any more.
    Stopped,
}

/// What the caller has to do after a cycle.
#[derive(Debug, PartialEq, Eq)]
pub enum PollAction {
    /// Send these events, one by one and in this order, then wait for the
    /// next cycle.
    Emit(Vec<UsbDeviceInfo>),
    /// Report the failed enumeration, then wait for the next cycle.
    Warn(EnumerationError),
    /// The loop has stopped: leave it.
    Halt,
}

/// The events of one cycle, in the order in which they are sent: all
/// `Connected` events first, then all `Disconnected` events. The tables
/// count identities: several records of one identity in a snapshot are one
/// device, and yield one event at most.
pub open spec fn cycle_events(
    previous: Seq<DeviceRecordView>,
    current: Seq<DeviceRecordView>,
    now: Timestamp,
) -> Seq<UsbDeviceInfoView> {
    connected_events(previous, current, now) + disconnected_events(previous, current, now)
}

/// Within the events of one cycle every `Connected` event comes before every
/// `Disconnected` event: the first are as many as the current table has new
/// devices, and all the rest are `Disconnected`.
pub proof fn cycle_events_are_ordered(
    previous: Seq<DeviceRecordView>,
    current: Seq<DeviceRecordView>,
    now: Timestamp,
)
    ensures
        cycle_events(previous, current, now).len() == missing_from(current, previous).len()
            + missing_from(previous, current).len(),
        forall|i: int|
            0 <= i < cycle_events(previous, current, now).len() ==> (#[trigger] cycle_events(
                previous,
                current,
                now,
            )[i]).event_type == if i < missing_from(current, previous).len() {
                DeviceEventType::Connected
            } else {
                DeviceEventType::Disconnected
            },
{
}

/// The state of a poll loop: whether it runs, and the table of the devices
/// known from the latest successful enumeration.
#[derive(Debug)]
pub struct PollLoop {
    state: WatcherState,
    known: KnownDevices,
}

impl PollLoop {
    /// Whether the loop runs or has stopped.
    pub closed spec fn state(&self) -> WatcherState {
        self.state
    }

    /// The known-device table.
    pub closed spec fn known(&self) -> Seq<DeviceRecordView> {
        self.known@
    }

    /// One cycle, as a relation: the loop `self` is handed `outcome` at the
    /// time `now`, becomes `after` and asks for `action`.
    ///
    /// A stopped loop stays as it is and asks to be left. A failed
    /// enumeration leaves the table as it was and asks for a warning. A
    /// snapshot replaces the table by its own, and the events are those of
    /// the diff between the two tables.
    pub open spec fn cycle(
        self,
        outcome: Result<Vec<DeviceRecord>, EnumerationError>,
        now: Timestamp,
        after: PollLoop,
        action: PollAction,
    ) -> bool {
        if self.state() == WatcherState::Stopped {
            after.state() == WatcherState::Stopped && after.known() == self.known() && action
                == PollAction::Halt
        } else {
            match outcome {
                Err(error) => after.state() == WatcherState::Running && after.known()
                    == self.known() && action == PollAction::Warn(error),
                Ok(records) => {
                    &&& after.state() == WatcherState::Running
                    &&& after.known() == snapshot_table(record_views(records@))
                    &&& action matches PollAction::Emit(events)
                    &&& event_views(events@) == cycle_events(self.known(), after.known(), now)
                },
            }
        }
    }

    /// A running loop that knows no device yet.
    pub fn new() -> (r: Self)
        ensures
            r.state() == WatcherState::Running,
            r.known() == Seq::<DeviceRecordView>::empty(),
    {
        PollLoop { state: WatcherState::Running, known: KnownDevices::new() }
    }

    /// Whether the loop still runs.
    pub fn is_running(&self) -> (r: bool)
        ensures
            r == (self.state() == WatcherState::Running),
    {
        match self.state {
            WatcherState::Running => true,
            WatcherState::Stopped => false,
        }
    }

    /// The known-device table.
    pub fn known_devices(&self) -> (r: &KnownDevices)
        ensures
            r@ == self.known(),
    {
        &self.known
    }

    /// Runs one cycle on the outcome of an enumeration, stamping the events
    /// with `now`.
    pub fn poll_cycle_at(
        &mut self,
        outcome: Result<Vec<DeviceRecord>, EnumerationError>,
        now: Timestamp,
    ) -> (action: PollAction)
        ensures
            old(self).cycle(outcome, now, *final(self), action),
            is_table(final(self).known()),
    {
        proof {
            use_type_invariant(&self.known);
        }
        match self.state {
            WatcherState::Stopped => PollAction::Halt,
            WatcherState::Running => match outcome {
                Err(error) => PollAction::Warn(error),
                Ok(records) => {
                    let current = KnownDevices::from_snapshot(&records);
                    let (mut events, mut disconnected) = diff(&self.known, &current, now);
                    let ghost connected = events@;
                    let ghost left = disconnected@;
                    self.known = current;
                    events.append(&mut disconnected);
                    assert(event_views(events@) =~= event_views(connected) + event_views(left));
                    PollAction::Emit(events)
                },
            },
        }
    }

    /// Runs one cycle on the outcome of an enumeration, stamping the events
    /// with the time the system clock shows.
    pub fn poll_cycle(&mut self, outcome: Result<Vec<DeviceRecord>, EnumerationError>) -> (action:
        PollAction)
        ensures
            exists|now: Timestamp| old(self).cycle(outcome, now, *final(self), action),
            is_table(final(self).known()),
    {
        let now = current_time();
        self.poll_cycle_at(outcome, now)
    }

    /// Records that the consumer closed the event channel: the loop stops,
    /// and its table stays as it is.
    pub fn channel_closed(&mut self)
        ensures
            final(self).state() == WatcherState::Stopped,
            final(self).known() == old(self).known(),
    {
        self.state = WatcherState::Stopped;
    }
}

/// Cross-platform USB device watcher: the poll loop of the platform's
/// adapter.
#[derive(Debug)]
pub enum UsbWatcher {
    /// Windows, enumerating through the device installation interface.
    Windows(WindowsUsbWatcher),
    /// Linux, enumerating through sysfs.
    Linux(LinuxUsbWatcher),
    /// macOS, enumerating through the I/O registry.
    Macos(MacosUsbWatcher),
}

impl UsbWatcher {
    /// The platform this watcher enumerates on.
    pub open spec fn platform(self) -> Platform {
        match self {
            UsbWatcher::Windows(_) => Platform::Windows,
            UsbWatcher::Linux(_) => Platform::Linux,
            UsbWatcher::Macos(_) => Platform::Macos,
        }
    }

    /// The poll loop of this watcher.
    pub open spec fn poll(self) -> PollLoop {
        match self {
            UsbWatcher::Windows(watcher) => watcher.poll,
            UsbWatcher::Linux(watcher) => watcher.poll,
            UsbWatcher::Macos(watcher) => watcher.poll,
        }
    }

    /// Creates a watcher for `platform`: a running poll loop that knows no
    /// device yet. Fails on a platform without an adapter.
    pub fn new(platform: Platform) -> (r: Result<UsbWatcher, WatchError>)
        ensures
            platform == Platform::Other <==> r is Err,
            r matches Err(error) ==> error == WatchError::PlatformUnsupported,
            r matches Ok(watcher) ==> watcher.platform() == platform && watcher.poll().state()
                == WatcherState::Running && watcher.poll().known() == Seq::<
                DeviceRecordView,
            >::empty(),
    {
        match platform {
            Platform::Windows => Ok(UsbWatcher::Windows(WindowsUsbWatcher::new())),
            Platform::Linux => Ok(UsbWatcher::Linux(LinuxUsbWatcher::new())),
            Platform::Macos => Ok(UsbWatcher::Macos(MacosUsbWatcher::new())),
            Platform::Other => Err(WatchError::PlatformUnsupported),
        }
    }

    /// Whether the watcher still runs.
    pub fn is_running(&self) -> (r: bool)
        ensures
            r == (self.poll().state() == WatcherState::Running),
    {
        match self {
            UsbWatcher::Windows(watcher) => watcher.poll.is_running(),
            UsbWatcher::Linux(watcher) => watcher.poll.is_running(),
            UsbWatcher::Macos(watcher) => watcher.poll.is_running(),
        }
    }

    /// Runs one cycle of the poll loop, stamping the events with `now`.
    pub fn poll_cycle_at(
        &mut self,
        outcome: Result<Vec<DeviceRecord>, EnumerationError>,
        now: Timestamp,
    ) -> (action: PollAction)
        ensures
            old(self).poll().cycle(outcome, now, final(self).poll(), action),
            final(self).platform() == old(self).platform(),
    {
        match self {
            UsbWatcher::Windows(watcher) => watcher.poll.poll_cycle_at(outcome, now),
            UsbWatcher::Linux(watcher) => watcher.poll.poll_cycle_at(outcome, now),
            UsbWatcher::Macos(watcher) => watcher.poll.poll_cycle_at(outcome, now),
        }
    }

    /// Runs one cycle of the poll loop, stamping the events with the time
    /// the system clock shows.
    pub fn poll_cycle(&mut self, outcome: Result<Vec<DeviceRecord>, EnumerationError>) -> (action:
        PollAction)
        ensures
            exists|now: Timestamp|
                old(self).poll().cycle(outcome, now, final(self).poll(), action),
            final(self).platform() == old(self).platform(),
    {
        let now = current_time();
        self.poll_cycle_at(outcome, now)
    }

    /// Records that the consumer closed the event channel.
    pub fn channel_closed(&mut self)
        ensures
            final(self).poll().state() == WatcherState::Stopped,
            final(self).poll().known() == old(self).poll().known(),
            final(self).platform() == old(self).platform(),
    {
        match self {
            UsbWatcher::Windows(watcher) => watcher.poll.channel_closed(),
            UsbWatcher::Linux(watcher) => watcher.poll.channel_closed(),
            UsbWatcher::Macos(watcher) => watcher.poll.channel_closed(),
        }
    }
}

} // verus!
