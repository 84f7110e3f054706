//! The known-device table, and the diff between two tables.
//!
//! A table holds, for every device identity seen in a snapshot, the record
//! last seen with that identity. Its entries keep the order in which their
//! identities first appeared in the snapshot, so that the events made from a
//! diff come in a fixed order. That is why the table is a vector whose
//! identities are kept distinct, and no hash map: a hash map holds the same
//! mapping, but walks it in an order that nothing fixes.

use crate::clock::Timestamp;
use crate::device_info::{
    DeviceEventType,
    DeviceRecord,
    DeviceRecordView,
    UsbDeviceInfo,
    UsbDeviceInfoView,
};
use crate::identity::{DeviceIdentityKey, IdentityKey};
use vstd::prelude::*;

verus! {

/// The mathematical values of a sequence of records.
pub open spec fn record_views(records: Seq<DeviceRecord>) -> Seq<DeviceRecordView> {
    Seq::new(records.len(), |i: int| records[i]@)
}

/// The mathematical values of a sequence of events.
pub open spec fn event_views(events: Seq<UsbDeviceInfo>) -> Seq<UsbDeviceInfoView> {
    Seq::new(events.len(), |i: int| events[i]@)
}

/// Whether some record among `entries` has the identity `key`.
pub open spec fn has_key(entries: Seq<DeviceRecordView>, key: IdentityKey) -> bool {
    exists|i: int| 0 <= i < entries.len() && #[trigger] entries[i].key() == key
}

/// A position of `entries` whose record has the identity `key`.
pub open spec fn position_of_key(entries: Seq<DeviceRecordView>, key: IdentityKey) -> int {
    choose|i: int| 0 <= i < entries.len() && #[trigger] entries[i].key() == key
}

/// What makes a sequence of records a table: no two of them share an
/// identity, and each of them identifies a device.
pub open spec fn is_table(entries: Seq<DeviceRecordView>) -> bool {
    &&& forall|i: int, j: int|
        0 <= i < j < entries.len() ==> #[trigger] entries[i].key() != #[trigger] entries[j].key()
    &&& forall|i: int| 0 <= i < entries.len() ==> #[trigger] entries[i].has_identity()
}

/// The table as a mapping from identity to record.
pub open spec fn as_map(entries: Seq<DeviceRecordView>) -> Map<IdentityKey, DeviceRecordView> {
    Map::new(
        |key: IdentityKey| has_key(entries, key),
        |key: IdentityKey| entries[position_of_key(entries, key)],
    )
}

/// `entries` after `record` was seen: it replaces the entry of its identity,
/// or comes last where its identity is new.
pub open spec fn upsert(entries: Seq<DeviceRecordView>, record: DeviceRecordView) -> Seq<
    DeviceRecordView,
> {
    if has_key(entries, record.key()) {
        entries.update(position_of_key(entries, record.key()), record)
    } else {
        entries.push(record)
    }
}

/// The table of a snapshot: its records are taken in order, those without an
/// identity are passed over, and a later record replaces an earlier one of the
/// same identity.
pub open spec fn snapshot_table(records: Seq<DeviceRecordView>) -> Seq<DeviceRecordView>
    decreases records.len(),
{
    if records.len() == 0 {
        Seq::empty()
    } else {
        let earlier = snapshot_table(records.drop_last());
        if records.last().has_identity() {
            upsert(earlier, records.last())
        } else {
            earlier
        }
    }
}

/// The records of `entries` whose identity does not occur in `other`, in the
/// order of `entries`.
pub open spec fn missing_from(entries: Seq<DeviceRecordView>, other: Seq<DeviceRecordView>) -> Seq<
    DeviceRecordView,
>
    decreases entries.len(),
{
    if entries.len() == 0 {
        Seq::empty()
    } else {
        let earlier = missing_from(entries.drop_last(), other);
        if has_key(other, entries.last().key()) {
            earlier
        } else {
            earlier.push(entries.last())
        }
    }
}

/// One event of kind `event_type`, issued at `now`, for each of `records`.
pub open spec fn events_of(
    records: Seq<DeviceRecordView>,
    event_type: DeviceEventType,
    now: Timestamp,
) -> Seq<UsbDeviceInfoView> {
    Seq::new(records.len(), |i: int| records[i].event(event_type, now))
}

/// The events for the devices that `current` holds and `previous` does not:
/// each carries the record of `current`.
pub open spec fn connected_events(
    previous: Seq<DeviceRecordView>,
    current: Seq<DeviceRecordView>,
    now: Timestamp,
) -> Seq<UsbDeviceInfoView> {
    events_of(missing_from(current, previous), DeviceEventType::Connected, now)
}

/// The events for the devices that `previous` holds and `current` does not:
/// each carries the record of `previous`, the last one known.
pub open spec fn disconnected_events(
    previous: Seq<DeviceRecordView>,
    current: Seq<DeviceRecordView>,
    now: Timestamp,
) -> Seq<UsbDeviceInfoView> {
    events_of(missing_from(previous, current), DeviceEventType::Disconnected, now)
}

/// Looks for the first record among `entries` with the identity `key`.
fn find_key(entries: &Vec<DeviceRecord>, key: &DeviceIdentityKey) -> (r: Option<usize>)
    ensures
        match r {
            Some(i) => i < entries.len() && record_views(entries@)[i as int].key() == key@,
            None => !has_key(record_views(entries@), key@),
        },
{
    let ghost views = record_views(entries@);
    let mut i: usize = 0;
    while i < entries.len()
        invariant
            i <= entries.len(),
            views == record_views(entries@),
            forall|j: int| 0 <= j < i ==> #[trigger] views[j].key() != key@,
        decreases entries.len() - i,
    {
        if entries[i].has_key(key) {
            return Some(i);
        }
        i += 1;
    }
    None
}

/// Makes one event of kind `event_type` for every record of `entries` whose
/// identity does not occur in `other`.
fn events_for_missing(
    entries: &Vec<DeviceRecord>,
    other: &Vec<DeviceRecord>,
    event_type: DeviceEventType,
    now: Timestamp,
) -> (events: Vec<UsbDeviceInfo>)
    ensures
        event_views(events@) == events_of(
            missing_from(record_views(entries@), record_views(other@)),
            event_type,
            now,
        ),
{
    let ghost views = record_views(entries@);
    let ghost others = record_views(other@);
    let mut events: Vec<UsbDeviceInfo> = Vec::new();
    let mut i: usize = 0;
    while i < entries.len()
        invariant
            i <= entries.len(),
            views == record_views(entries@),
            others == record_views(other@),
            event_views(events@) == events_of(
                missing_from(views.take(i as int), others),
                event_type,
                now,
            ),
        decreases entries.len() - i,
    {
        let ghost before = missing_from(views.take(i as int), others);
        assert(views.take(i + 1).drop_last() =~= views.take(i as int));
        let key = entries[i].identity_key();
        if find_key(other, &key).is_none() {
            let event = UsbDeviceInfo::from_record(entries[i].clone(), event_type, now);
            events.push(event);
            assert(events_of(before.push(views[i as int]), event_type, now) =~= events_of(
                before,
                event_type,
                now,
            ).push(views[i as int].event(event_type, now)));
        }
        i += 1;
    }
    assert(views.take(entries.len() as int) =~= views);
    events
}

/// The devices known from the latest snapshot.
#[derive(Debug)]
pub struct KnownDevices {
    entries: Vec<DeviceRecord>,
}

impl View for KnownDevices {
    type V = Seq<DeviceRecordView>;

    /// The records of the table, in the order in which their identities
    /// first appeared.
    closed spec fn view(&self) -> Seq<DeviceRecordView> {
        record_views(self.entries@)
    }
}

impl KnownDevices {
    /// Holds of every table: its identities are distinct, and each of its
    /// records identifies a device.
    #[verifier::type_invariant]
    pub open spec fn well_formed(self) -> bool {
        is_table(self@)
    }

    /// The empty table.
    pub fn new() -> (table: Self)
        ensures
            table@ == Seq::<DeviceRecordView>::empty(),
    {
        KnownDevices { entries: Vec::new() }
    }

    /// The table of a snapshot. Records without an identity are passed over;
    /// of several records with one identity the last one stays, at the place
    /// of the first.
    pub fn from_snapshot(records: &Vec<DeviceRecord>) -> (table: Self)
        ensures
            table@ == snapshot_table(record_views(records@)),
            is_table(table@),
    {
        let ghost views = record_views(records@);
        let mut entries: Vec<DeviceRecord> = Vec::new();
        let mut i: usize = 0;
        while i < records.len()
            invariant
                i <= records.len(),
                views == record_views(records@),
                record_views(entries@) == snapshot_table(views.take(i as int)),
                is_table(record_views(entries@)),
            decreases records.len() - i,
        {
            let ghost before = record_views(entries@);
            assert(views.take(i + 1).drop_last() =~= views.take(i as int));
            if records[i].has_identity() {
                let key = records[i].identity_key();
                match find_key(&entries, &key) {
                    Some(at) => {
                        entries.set(at, records[i].clone());
                        assert(record_views(entries@) =~= before.update(
                            at as int,
                            views[i as int],
                        ));
                    },
                    None => {
                        entries.push(records[i].clone());
                        assert(record_views(entries@) =~= before.push(views[i as int]));
                    },
                }
                proof {
                    upsert_keeps_table(before, views[i as int]);
                }
            }
            i += 1;
        }
        assert(views.take(records.len() as int) =~= views);
        KnownDevices { entries }
    }

    /// The number of devices in the table.
    pub fn len(&self) -> (n: usize)
        ensures
            n == self@.len(),
    {
        self.entries.len()
    }

    /// Whether the table holds no device.
    pub fn is_empty(&self) -> (r: bool)
        ensures
            r == (self@.len() == 0),
    {
        self.entries.len() == 0
    }

    /// Whether the table holds a device with the identity `key`.
    pub fn contains_key(&self, key: &DeviceIdentityKey) -> (r: bool)
        ensures
            r == has_key(self@, key@),
    {
        find_key(&self.entries, key).is_some()
    }

    /// The record last seen with the identity `key`.
    pub fn get(&self, key: &DeviceIdentityKey) -> (r: Option<&DeviceRecord>)
        ensures
            is_table(self@),
            match r {
                Some(record) => as_map(self@).contains_key(key@) && record@ == as_map(self@)[key@],
                None => !as_map(self@).contains_key(key@),
            },
    {
        proof {
            use_type_invariant(self);
        }
        match find_key(&self.entries, key) {
            Some(at) => Some(&self.entries[at]),
            None => None,
        }
    }

    /// The records of the table, in order.
    pub fn records(&self) -> (records: Vec<DeviceRecord>)
        ensures
            record_views(records@) == self@,
            is_table(self@),
    {
        proof {
            use_type_invariant(self);
        }
        let mut records: Vec<DeviceRecord> = Vec::new();
        let mut i: usize = 0;
        while i < self.entries.len()
            invariant
                i <= self.entries.len(),
                record_views(records@) == record_views(self.entries@).take(i as int),
            decreases self.entries.len() - i,
        {
            records.push(self.entries[i].clone());
            assert(record_views(self.entries@).take(i + 1) =~= record_views(self.entries@).take(
                i as int,
            ).push(self.entries@[i as int]@));
            i += 1;
        }
        records
    }
}

/// Compares the table of the previous snapshot with that of the current one.
///
/// The first sequence returned holds one `Connected` event for every device
/// of `current` that `previous` does not hold, carrying the current record.
/// The second holds one `Disconnected` event for every device of `previous`
/// that `current` does not hold, carrying the record last known. A device
/// held by both yields no event, whatever else changed in its record. Every
/// event is stamped with `now`.
pub fn diff(previous: &KnownDevices, current: &KnownDevices, now: Timestamp) -> (events: (
    Vec<UsbDeviceInfo>,
    Vec<UsbDeviceInfo>,
))
    ensures
        event_views(events.0@) == connected_events(previous@, current@, now),
        event_views(events.1@) == disconnected_events(previous@, current@, now),
        events.0@.len() == missing_from(current@, previous@).len(),
        events.1@.len() == missing_from(previous@, current@).len(),
        is_table(previous@),
        is_table(current@),
{
    proof {
        use_type_invariant(previous);
        use_type_invariant(current);
    }
    let connected = events_for_missing(
        &current.entries,
        &previous.entries,
        DeviceEventType::Connected,
        now,
    );
    let disconnected = events_for_missing(
        &previous.entries,
        &current.entries,
        DeviceEventType::Disconnected,
        now,
    );
    assert(event_views(disconnected@).len() == disconnected@.len());
    (connected, disconnected)
}

/// Seeing one more record with an identity keeps a table a table.
pub proof fn upsert_keeps_table(entries: Seq<DeviceRecordView>, record: DeviceRecordView)
    requires
        is_table(entries),
        record.has_identity(),
    ensures
        is_table(upsert(entries, record)),
{
}

/// In a table, the record with a given identity stands at one position only.
pub proof fn position_is_unique(entries: Seq<DeviceRecordView>, at: int)
    requires
        is_table(entries),
        0 <= at < entries.len(),
    ensures
        has_key(entries, entries[at].key()),
        position_of_key(entries, entries[at].key()) == at,
{
}

/// The table of a snapshot is a table: its identities are distinct, and none
/// of its records has the vendor id and the product id `0000` at once.
pub proof fn snapshot_table_is_table(records: Seq<DeviceRecordView>)
    ensures
        is_table(snapshot_table(records)),
    decreases records.len(),
{
    if records.len() > 0 {
        snapshot_table_is_table(records.drop_last());
        if records.last().has_identity() {
            upsert_keeps_table(snapshot_table(records.drop_last()), records.last());
        }
    }
}

/// The table of a snapshot holds exactly the identities of the snapshot's
/// records that identify a device.
pub proof fn snapshot_table_keys(records: Seq<DeviceRecordView>, key: IdentityKey)
    ensures
        has_key(snapshot_table(records), key) <==> exists|i: int|
            0 <= i < records.len() && records[i].has_identity() && #[trigger] records[i].key()
                == key,
    decreases records.len(),
{
    if records.len() > 0 {
        let earlier_records = records.drop_last();
        let earlier = snapshot_table(earlier_records);
        let last = records.last();
        let table = snapshot_table(records);
        snapshot_table_keys(earlier_records, key);
        if has_key(table, key) {
            let at = position_of_key(table, key);
            if !(last.has_identity() && table[at] == last) {
                assert(has_key(earlier, key));
            }
        }
        if exists|i: int|
            0 <= i < records.len() && records[i].has_identity() && #[trigger] records[i].key()
                == key {
            let i = choose|i: int|
                0 <= i < records.len() && records[i].has_identity() && #[trigger] records[i].key()
                    == key;
            if i < records.len() - 1 {
                assert(earlier_records[i].key() == key);
                let at = position_of_key(earlier, key);
                assert(table[at].key() == key);
            } else {
                if has_key(earlier, last.key()) {
                    let changed = position_of_key(earlier, last.key());
                    assert(table[changed].key() == key);
                } else {
                    assert(table[table.len() - 1].key() == key);
                }
            }
        }
    }
}

/// Last writer wins: the table of a snapshot holds, for an identity, the last
/// record of the snapshot with that identity.
pub proof fn snapshot_table_keeps_last(records: Seq<DeviceRecordView>, last_seen: int)
    requires
        0 <= last_seen < records.len(),
        records[last_seen].has_identity(),
        forall|j: int|
            last_seen < j < records.len() ==> #[trigger] records[j].key()
                != records[last_seen].key(),
    ensures
        as_map(snapshot_table(records)).contains_key(records[last_seen].key()),
        as_map(snapshot_table(records))[records[last_seen].key()] == records[last_seen],
    decreases records.len(),
{
    let key = records[last_seen].key();
    let earlier_records = records.drop_last();
    let earlier = snapshot_table(earlier_records);
    let table = snapshot_table(records);
    snapshot_table_is_table(records);
    snapshot_table_is_table(earlier_records);
    if last_seen == records.len() - 1 {
        if has_key(earlier, key) {
            let at = position_of_key(earlier, key);
            position_is_unique(table, at);
        } else {
            position_is_unique(table, table.len() - 1);
        }
    } else {
        snapshot_table_keeps_last(earlier_records, last_seen);
        let at = position_of_key(earlier, key);
        position_is_unique(table, at);
    }
}

/// A table holds as many records as it has identities.
pub proof fn table_size(entries: Seq<DeviceRecordView>)
    requires
        is_table(entries),
    ensures
        as_map(entries).dom().finite(),
        as_map(entries).dom().len() == entries.len(),
    decreases entries.len(),
{
    if entries.len() == 0 {
        assert(as_map(entries).dom() =~= Set::empty());
    } else {
        let earlier = entries.drop_last();
        let last = entries.last();
        table_size(earlier);
        assert(!has_key(earlier, last.key()));
        assert(as_map(entries).dom() =~= as_map(earlier).dom().insert(last.key())) by {
            assert forall|key: IdentityKey| has_key(entries, key) <==> has_key(earlier, key) || key
                == last.key() by {
                if has_key(entries, key) {
                    let at = position_of_key(entries, key);
                    if at < earlier.len() {
                        assert(earlier[at].key() == key);
                    }
                }
            }
        }
    }
}

/// What a diff keeps: a record is among `missing_from(entries, other)`
/// exactly when it is among `entries` and its identity does not occur in
/// `other`.
pub proof fn missing_from_members(
    entries: Seq<DeviceRecordView>,
    other: Seq<DeviceRecordView>,
    record: DeviceRecordView,
)
    ensures
        missing_from(entries, other).contains(record) <==> entries.contains(record) && !has_key(
            other,
            record.key(),
        ),
    decreases entries.len(),
{
    let kept = missing_from(entries, other);
    if entries.len() > 0 {
        let earlier = entries.drop_last();
        let kept_earlier = missing_from(earlier, other);
        missing_from_members(earlier, other, record);
        if entries.contains(record) && !has_key(other, record.key()) {
            let origin = choose|i: int| 0 <= i < entries.len() && entries[i] == record;
            if origin < earlier.len() {
                assert(earlier[origin] == record);
                let at = choose|i: int| 0 <= i < kept_earlier.len() && kept_earlier[i] == record;
                assert(kept[at] == record);
            } else {
                assert(kept[kept.len() - 1] == record);
            }
        }
    }
}

/// Where no record of `entries` has its identity in `other`, all of them are
/// kept.
pub proof fn missing_from_keeps_all(entries: Seq<DeviceRecordView>, other: Seq<DeviceRecordView>)
    requires
        forall|i: int| 0 <= i < entries.len() ==> !has_key(other, #[trigger] entries[i].key()),
    ensures
        missing_from(entries, other) == entries,
    decreases entries.len(),
{
    if entries.len() > 0 {
        let earlier = entries.drop_last();
        missing_from_keeps_all(earlier, other);
    }
}

/// Where every record of `entries` has its identity in `other`, none is
/// kept.
pub proof fn missing_from_keeps_none(entries: Seq<DeviceRecordView>, other: Seq<DeviceRecordView>)
    requires
        forall|i: int| 0 <= i < entries.len() ==> has_key(other, #[trigger] entries[i].key()),
    ensures
        missing_from(entries, other) == Seq::<DeviceRecordView>::empty(),
    decreases entries.len(),
{
    if entries.len() > 0 {
        let earlier = entries.drop_last();
        missing_from_keeps_none(earlier, other);
    }
}

/// Between two tables that share no identity, every device of the current
/// one connects and every device of the previous one disconnects: there are
/// as many `Connected` events as the current table has devices, and as many
/// `Disconnected` events as the previous one has.
pub proof fn diff_of_disjoint_tables(
    previous: Seq<DeviceRecordView>,
    current: Seq<DeviceRecordView>,
    now: Timestamp,
)
    requires
        forall|key: IdentityKey| !(has_key(previous, key) && has_key(current, key)),
    ensures
        connected_events(previous, current, now) == events_of(
            current,
            DeviceEventType::Connected,
            now,
        ),
        disconnected_events(previous, current, now) == events_of(
            previous,
            DeviceEventType::Disconnected,
            now,
        ),
        connected_events(previous, current, now).len() == current.len(),
        disconnected_events(previous, current, now).len() == previous.len(),
{
    missing_from_keeps_all(current, previous);
    missing_from_keeps_all(previous, current);
}

/// Two tables that hold the same identities yield no event, whatever else
/// differs between their records.
pub proof fn diff_of_same_devices(
    previous: Seq<DeviceRecordView>,
    current: Seq<DeviceRecordView>,
    now: Timestamp,
)
    requires
        forall|key: IdentityKey| has_key(previous, key) <==> has_key(current, key),
    ensures
        connected_events(previous, current, now) == Seq::<UsbDeviceInfoView>::empty(),
        disconnected_events(previous, current, now) == Seq::<UsbDeviceInfoView>::empty(),
{
    missing_from_keeps_none(current, previous);
    missing_from_keeps_none(previous, current);
}

/// A table compared with itself yields no event.
pub proof fn diff_of_unchanged_table(table: Seq<DeviceRecordView>, now: Timestamp)
    ensures
        connected_events(table, table, now).len() == 0,
        disconnected_events(table, table, now).len() == 0,
{
    diff_of_same_devices(table, table, now);
}

/// No event of a diff between two tables is about a record whose vendor id
/// and product id are both `0000`.
pub proof fn diff_events_have_identity(
    previous: Seq<DeviceRecordView>,
    current: Seq<DeviceRecordView>,
    now: Timestamp,
)
    requires
        is_table(previous),
        is_table(current),
    ensures
        forall|i: int|
            0 <= i < connected_events(previous, current, now).len() ==> #[trigger] connected_events(
                previous,
                current,
                now,
            )[i].record().has_identity(),
        forall|i: int|
            0 <= i < disconnected_events(previous, current, now).len()
                ==> #[trigger] disconnected_events(previous, current, now)[i].record().has_identity(),
{
    let arrived = missing_from(current, previous);
    assert forall|i: int| 0 <= i < arrived.len() implies #[trigger] connected_events(
        previous,
        current,
        now,
    )[i].record().has_identity() by {
        missing_from_members(current, previous, arrived[i]);
    }
    let left = missing_from(previous, current);
    assert forall|i: int| 0 <= i < left.len() implies #[trigger] disconnected_events(
        previous,
        current,
        now,
    )[i].record().has_identity() by {
        missing_from_members(previous, current, left[i]);
    }
}

} // verus!
