//! Gathering events until a deadline.
//!
//! Waiting for the next event or for the deadline is the caller's part; it
//! reports here what happened, and takes the gathered events at the end.

use crate::device_info::{UsbDeviceInfo, UsbDeviceInfoView};
use crate::table::event_views;
use vstd::prelude::*;

verus! {

/// The events gathered so far, and whether gathering still goes on.
#[derive(Debug)]
pub struct EventCollector {
    events: Vec<UsbDeviceInfo>,
    open: bool,
}

impl EventCollector {
    /// The events gathered so far, in the order in which they came.
    pub closed spec fn gathered(&self) -> Seq<UsbDeviceInfoView> {
        event_views(self.events@)
    }

    /// Whether further events are still taken.
    pub closed spec fn is_open(&self) -> bool {
        self.open
    }

    /// A collector that has gathered nothing yet.
    pub fn new() -> (r: Self)
        ensures
            r.is_open(),
            r.gathered() == Seq::<UsbDeviceInfoView>::empty(),
    {
        EventCollector { events: Vec::new(), open: true }
    }

    /// Takes what the channel delivered: an event, or `None` once the channel
    /// is closed. An event is added while the collector is open; the end of
    /// the channel closes the collector. Returns whether the collector is
    /// still open.
    pub fn receive(&mut self, message: Option<UsbDeviceInfo>) -> (open: bool)
        ensures
            open == final(self).is_open(),
            final(self).is_open() == (old(self).is_open() && message is Some),
            final(self).gathered() == match message {
                Some(event) if old(self).is_open() => old(self).gathered().push(event@),
                _ => old(self).gathered(),
            },
    {
        if self.open {
            match message {
                Some(event) => {
                    self.events.push(event);
                },
                None => {
                    self.open = false;
                },
            }
        }
        self.open
    }

    /// Records that the deadline has passed: the collector closes and keeps
    /// what it has gathered.
    pub fn deadline(&mut self)
        ensures
            !final(self).is_open(),
            final(self).gathered() == old(self).gathered(),
    {
        self.open = false;
    }

    /// Hands out the gathered events.
    pub fn into_events(self) -> (events: Vec<UsbDeviceInfo>)
        ensures
            event_views(events@) == self.gathered(),
    {
        self.events
    }
}

} // verus!
