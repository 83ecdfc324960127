//! Timestamp-guarded appends of tracker entries to the durable streams.
//!
//! Before an entry is appended, `set_if_greater` on the stream's last-timestamp
//! key decides whether it is newer than everything appended so far; only then is
//! it appended, under the id `{timestamp_ms}-0`. A store refusal of a duplicate id
//! counts as success.

use vstd::prelude::*;

use crate::fields::{field, field_value, find_field};
use crate::keys::{
    hardware_last_timestamp_key, hardware_stream_key, position_last_timestamp_key,
    position_stream_key, tracker_key_spec,
};
use crate::scripts::{set_if_greater_spec, Gauge};
use crate::text::{
    contains, contains_text, decimal, i64_text, lemma_decimal_nat_round_trip, parse_spec,
    parse_u64, u64_text,
};

verus! {

/// The two streams of a tracker.
#[derive(Clone, Copy, Debug, PartialEq, Eq, Structural)]
pub enum EntryKind {
    Hardware,
    Position,
}

/// A hardware entry: when it was taken (seconds since the epoch) and the battery level.
pub struct HardwareEntry {
    pub timestamp: i64,
    pub battery_level: u8,
}

/// Why a field list is not a hardware entry.
#[derive(Clone, Copy, Debug, PartialEq, Eq, Structural)]
pub enum FieldError {
    MissingTimestamp,
    InvalidTimestamp,
    MissingBattery,
    InvalidBattery,
}

/// The hardware entry that a field list spells.
pub open spec fn hardware_from_fields_spec(fields: Seq<(String, String)>) -> Result<HardwareEntry, FieldError> {
    match field_value(fields, "ts"@) {
        None => Err(FieldError::MissingTimestamp),
        Some(ts) => match parse_spec(ts@) {
            Some(t) if t <= i64::MAX => match field_value(fields, "battery"@) {
                None => Err(FieldError::MissingBattery),
                Some(b) => match parse_spec(b@) {
                    Some(level) if level <= u8::MAX => Ok(
                        HardwareEntry { timestamp: t as i64, battery_level: level as u8 },
                    ),
                    _ => Err(FieldError::InvalidBattery),
                },
            },
            _ => Err(FieldError::InvalidTimestamp),
        },
    }
}

impl HardwareEntry {
    /// The fields of the stream entry: `ts` in seconds, then `battery`.
    pub fn into_fields(&self) -> (r: Vec<(String, String)>)
        ensures
            r@.len() == 2,
            r@[0].0@ == "ts"@,
            r@[0].1@ == decimal(self.timestamp as int),
            r@[1].0@ == "battery"@,
            r@[1].1@ == decimal(self.battery_level as int),
    {
        let mut r = Vec::new();
        r.push(field("ts", i64_text(self.timestamp)));
        r.push(field("battery", u64_text(self.battery_level as u64)));
        r
    }

    /// Reads a hardware entry back from the fields of a stream entry.
    pub fn from_fields(fields: &Vec<(String, String)>) -> (r: Result<HardwareEntry, FieldError>)
        ensures
            r == hardware_from_fields_spec(fields@),
    {
        let ts = match find_field(fields, "ts") {
            None => return Err(FieldError::MissingTimestamp),
            Some(ts) => ts,
        };
        let t = match parse_u64(ts.as_str()) {
            Some(t) if t <= i64::MAX as u64 => t,
            _ => return Err(FieldError::InvalidTimestamp),
        };
        let b = match find_field(fields, "battery") {
            None => return Err(FieldError::MissingBattery),
            Some(b) => b,
        };
        match parse_u64(b.as_str()) {
            Some(level) if level <= u8::MAX as u64 => Ok(
                HardwareEntry { timestamp: t as i64, battery_level: level as u8 },
            ),
            _ => Err(FieldError::InvalidBattery),
        }
    }
}

/// The fields of a hardware entry read back give the entry, for timestamps from the epoch on.
pub proof fn lemma_hardware_fields_round_trip(entry: HardwareEntry, fields: Seq<(String, String)>)
    requires
        entry.timestamp >= 0,
        fields.len() == 2,
        fields[0].0@ == "ts"@,
        fields[0].1@ == decimal(entry.timestamp as int),
        fields[1].0@ == "battery"@,
        fields[1].1@ == decimal(entry.battery_level as int),
    ensures
        hardware_from_fields_spec(fields) == Ok::<HardwareEntry, FieldError>(entry),
{
    reveal_strlit("ts");
    reveal_strlit("battery");
    lemma_decimal_nat_round_trip(entry.timestamp as nat);
    lemma_decimal_nat_round_trip(entry.battery_level as nat);
    assert(field_value(fields, "ts"@) == Some(fields[0].1));
    assert(parse_spec(fields[0].1@) == Some(entry.timestamp as u64));
    assert("ts"@.len() != "battery"@.len());
    assert(fields.drop_first()[0] == fields[1]);
    assert(field_value(fields.drop_first(), "battery"@) == Some(fields[1].1));
    assert(field_value(fields, "battery"@) == Some(fields[1].1));
    assert(parse_spec(fields[1].1@) == Some(entry.battery_level as u64));
}

/// `{timestamp * 1000}-0`: the id of the stream entry of a timestamp in seconds.
pub open spec fn stream_entry_id_spec(timestamp: int) -> Seq<char> {
    decimal(timestamp * 1000) + "-0"@
}

/// Whether a timestamp in seconds has its milliseconds in an `i64`.
pub open spec fn millis_fit(timestamp: int) -> bool {
    i64::MIN <= timestamp * 1000 <= i64::MAX
}

/// The id of the stream entry of a timestamp in seconds, where its milliseconds fit.
pub fn stream_entry_id(timestamp: i64) -> (r: Option<String>)
    ensures
        r is Some <==> millis_fit(timestamp as int),
        r matches Some(id) ==> id@ == stream_entry_id_spec(timestamp as int),
{
    if timestamp > i64::MAX / 1000 || timestamp < i64::MIN / 1000 {
        return None;
    }
    let mut id = i64_text(timestamp * 1000);
    id.append("-0");
    Some(id)
}

/// The last-timestamp key that guards the stream of `kind`.
pub fn guard_key(tracker_id: &str, kind: EntryKind) -> (r: String)
    ensures
        r@ == tracker_key_spec(tracker_id@, guard_suffix(kind)),
{
    match kind {
        EntryKind::Hardware => hardware_last_timestamp_key(tracker_id),
        EntryKind::Position => position_last_timestamp_key(tracker_id),
    }
}

pub open spec fn guard_suffix(kind: EntryKind) -> Seq<char> {
    match kind {
        EntryKind::Hardware => ":hardware:last_timestamp"@,
        EntryKind::Position => ":position:last_timestamp"@,
    }
}

pub open spec fn stream_suffix(kind: EntryKind) -> Seq<char> {
    match kind {
        EntryKind::Hardware => ":hardware"@,
        EntryKind::Position => ":position"@,
    }
}

/// The stream that holds entries of `kind`.
pub fn stream_key(tracker_id: &str, kind: EntryKind) -> (r: String)
    ensures
        r@ == tracker_key_spec(tracker_id@, stream_suffix(kind)),
{
    match kind {
        EntryKind::Hardware => hardware_stream_key(tracker_id),
        EntryKind::Position => position_stream_key(tracker_id),
    }
}

/// Where an entry goes: the stream key and the entry id.
pub struct StreamAppend {
    pub key: String,
    pub id: String,
}

/// The entry's timestamp has no millisecond id in an `i64`.
#[derive(Clone, Copy, Debug, PartialEq, Eq, Structural)]
pub struct TimestampOutOfRange {
    pub timestamp: i64,
}

/// What follows the guard's reply: nothing when the timestamp did not advance it (the
/// entry is not newer than the last appended one), else the append of the entry to
/// the stream of `kind` under `{timestamp_ms}-0`.
pub fn after_guard(tracker_id: &str, kind: EntryKind, timestamp: i64, changed: bool) -> (r: Result<
    Option<StreamAppend>,
    TimestampOutOfRange,
>)
    ensures
        !changed ==> r matches Ok(None),
        changed && !millis_fit(timestamp as int) ==> r == Err::<Option<StreamAppend>, _>(
            TimestampOutOfRange { timestamp },
        ),
        changed && millis_fit(timestamp as int) ==> (r matches Ok(Some(a)) && a.key@
            == tracker_key_spec(tracker_id@, stream_suffix(kind)) && a.id@ == stream_entry_id_spec(
            timestamp as int,
        )),
{
    if !changed {
        return Ok(None);
    }
    match stream_entry_id(timestamp) {
        None => Err(TimestampOutOfRange { timestamp }),
        Some(id) => Ok(Some(StreamAppend { key: stream_key(tracker_id, kind), id })),
    }
}

/// How the store words its refusal of an entry id that is not above the stream's top.
pub const DUPLICATE_ID_MESSAGE: &'static str = "equal or smaller than the target stream top item";

/// Whether a failed append is the refusal of a duplicate id, which counts as success:
/// an error of the store's generic kind that says so. Every other failure is one.
pub fn is_duplicate_entry(generic_kind: bool, message: &str) -> (r: bool)
    ensures
        r == (generic_kind && contains_text(message@, DUPLICATE_ID_MESSAGE@)),
{
    generic_kind && contains(message, DUPLICATE_ID_MESSAGE)
}

/// A stream and its last-timestamp guard, held in memory.
pub struct GuardedStream {
    pub last_timestamp: Gauge,
    /// Timestamps of the appended entries, in stream order.
    pub entries: Vec<i64>,
}

/// Appending `timestamp` through the guard: the guard's value and the entries afterwards.
pub open spec fn guarded_append_spec(last: Option<i64>, entries: Seq<i64>, timestamp: i64) -> (Option<i64>, Seq<i64>) {
    let (reply, after) = set_if_greater_spec(last, timestamp);
    if reply.0 {
        (after, entries.push(timestamp))
    } else {
        (after, entries)
    }
}

/// Entries strictly ascend (so no two share a timestamp), and none is above the guard.
pub open spec fn guarded_wf(last: Option<i64>, entries: Seq<i64>) -> bool {
    &&& forall|i: int, j: int| 0 <= i < j < entries.len() ==> entries[i] < entries[j]
    &&& entries.len() > 0 ==> (last matches Some(t) && entries.last() <= t)
}

impl GuardedStream {
    pub open spec fn wf(&self) -> bool {
        guarded_wf(self.last_timestamp.value, self.entries@)
    }

    pub fn new() -> (r: Self)
        ensures
            r.wf(),
            r.last_timestamp.value.is_none(),
            r.entries@.len() == 0,
    {
        GuardedStream { last_timestamp: Gauge::new(), entries: Vec::new() }
    }

    /// Appends an entry if the guard lets it through; tells whether it did.
    pub fn append(&mut self, timestamp: i64) -> (r: bool)
        requires
            old(self).wf(),
        ensures
            final(self).wf(),
            (final(self).last_timestamp.value, final(self).entries@) == guarded_append_spec(
                old(self).last_timestamp.value,
                old(self).entries@,
                timestamp,
            ),
            r == set_if_greater_spec(old(self).last_timestamp.value, timestamp).0.0,
    {
        let (changed, _) = self.last_timestamp.set_if_greater(timestamp);
        if changed {
            self.entries.push(timestamp);
        }
        changed
    }
}

/// Entries of a guarded stream do not go back in time, whatever is appended: a later
/// entry has a timestamp at least that of an earlier one.
pub proof fn lemma_guarded_append_monotone(last: Option<i64>, entries: Seq<i64>, timestamp: i64)
    requires
        guarded_wf(last, entries),
    ensures
        guarded_wf(guarded_append_spec(last, entries, timestamp).0, guarded_append_spec(last, entries, timestamp).1),
        forall|i: int, j: int| 0 <= i < j < guarded_append_spec(last, entries, timestamp).1.len()
            ==> guarded_append_spec(last, entries, timestamp).1[i]
                <= guarded_append_spec(last, entries, timestamp).1[j],
{
}

/// Appending one entry twice leaves at most one element for it.
pub proof fn lemma_guarded_append_twice(last: Option<i64>, entries: Seq<i64>, timestamp: i64)
    requires
        guarded_wf(last, entries),
    ensures
        ({
            let (last1, entries1) = guarded_append_spec(last, entries, timestamp);
            let (last2, entries2) = guarded_append_spec(last1, entries1, timestamp);
            &&& entries2 == entries1
            &&& entries2.len() <= entries.len() + 1
        }),
{
}

/// Keep-alive window of the tracker channel until a handshake names one, in seconds.
pub const DEFAULT_KEEP_ALIVE_SECS: u64 = 600;

/// A frame of the tracker channel, as far as the ingestor tells them apart.
#[derive(Clone, Copy, Debug, PartialEq, Eq, Structural)]
pub enum FrameKind {
    /// Opens the channel and names the keep-alive window.
    Handshake { keep_alive_ttl_secs: u64 },
    KeepAlive,
    /// Carries a hardware entry, a position entry, both or neither.
    TrackerStatus { hardware: bool, position: bool },
    Other,
}

/// The keep-alive window after a frame: the one a handshake names, else unchanged. No
/// frame within the window means the channel is dead.
pub fn keep_alive_after(window_secs: u64, frame: FrameKind) -> (r: u64)
    ensures
        r == match frame {
            FrameKind::Handshake { keep_alive_ttl_secs } => keep_alive_ttl_secs,
            _ => window_secs,
        },
{
    match frame {
        FrameKind::Handshake { keep_alive_ttl_secs } => keep_alive_ttl_secs,
        _ => window_secs,
    }
}

/// The appends a frame asks for, in order: its hardware entry, then its position entry.
/// A tracker status is followed by a heartbeat; other frames ask for nothing.
pub fn frame_appends(frame: FrameKind) -> (r: Vec<EntryKind>)
    ensures
        r@ == match frame {
            FrameKind::TrackerStatus { hardware, position } => if hardware && position {
                seq![EntryKind::Hardware, EntryKind::Position]
            } else if hardware {
                seq![EntryKind::Hardware]
            } else if position {
                seq![EntryKind::Position]
            } else {
                Seq::empty()
            },
            _ => Seq::<EntryKind>::empty(),
        },
{
    let mut r: Vec<EntryKind> = Vec::new();
    if let FrameKind::TrackerStatus { hardware, position } = frame {
        if hardware {
            r.push(EntryKind::Hardware);
        }
        if position {
            r.push(EntryKind::Position);
        }
    }
    proof {
        if let FrameKind::TrackerStatus { hardware, position } = frame {
            if hardware && position {
                assert(r@ =~= seq![EntryKind::Hardware, EntryKind::Position]);
            } else if hardware {
                assert(r@ =~= seq![EntryKind::Hardware]);
            } else if position {
                assert(r@ =~= seq![EntryKind::Position]);
            } else {
                assert(r@ =~= Seq::<EntryKind>::empty());
            }
        } else {
            assert(r@ =~= Seq::<EntryKind>::empty());
        }
    }
    r
}

/// Whether a frame is followed by a heartbeat: a tracker status is.
pub fn heartbeat_after(frame: FrameKind) -> (r: bool)
    ensures
        r == frame is TrackerStatus,
{
    match frame {
        FrameKind::TrackerStatus { .. } => true,
        _ => false,
    }
}

} // verus!
