use rusty_home::heartbeat::HeartbeatPacer;
use rusty_home::ingest::{
    after_guard, guard_key, is_duplicate_entry, stream_entry_id, EntryKind, FieldError, GuardedStream,
    HardwareEntry, TimestampOutOfRange, DUPLICATE_ID_MESSAGE,
};
use rusty_home::listener::on_battery_level;
use rusty_home::battery::BatteryOpts;
use rusty_home::models::ChatId;
use rusty_home::scripts::Gauge;

fn pair(name: &str, value: &str) -> (String, String) {
    (name.to_string(), value.to_string())
}

#[test]
fn first_hardware_event() {
    let mut guard = Gauge::new();
    let mut stream: Vec<(String, String, Vec<(String, String)>)> = Vec::new();
    let mut heartbeat = HeartbeatPacer::new();
    let entry = HardwareEntry { timestamp: 1650802598, battery_level: 55 };

    assert_eq!(guard_key("AB12", EntryKind::Hardware), "rusty:tractive:ab12:hardware:last_timestamp");
    let (changed, previous) = guard.set_if_greater(entry.timestamp);
    assert!(changed);
    assert_eq!(previous, None);
    let append = after_guard("ab12", EntryKind::Hardware, entry.timestamp, changed)
        .ok()
        .unwrap()
        .expect("an append");
    stream.push((append.key, append.id, entry.into_fields()));
    assert_eq!(guard.value, Some(1650802598));
    assert_eq!(
        stream,
        vec![(
            "rusty:tractive:ab12:hardware".to_string(),
            "1650802598000-0".to_string(),
            vec![pair("ts", "1650802598"), pair("battery", "55")],
        )]
    );

    // The consumer reads the entry back; a first level gives no chat message.
    let read = HardwareEntry::from_fields(&stream[0].2).ok().unwrap();
    assert_eq!((read.timestamp, read.battery_level), (1650802598, 55));
    let mut battery = Gauge::new();
    let (changed, previous) = battery.set_if_not_equal(read.battery_level as i64);
    let previous = previous.map(|p| p as u8);
    let notice = on_battery_level(&BatteryOpts::default(), ChatId::UniqueId(1), changed, previous, 55);
    assert!(matches!(notice, Ok(None)));
    assert!(heartbeat.try_acquire(1_000));
}

#[test]
fn out_of_order_position() {
    let mut guard = Gauge { value: Some(1650806275) };
    let mut heartbeat = HeartbeatPacer::new();
    let (changed, previous) = guard.set_if_greater(1650806000);
    assert!(!changed);
    assert_eq!(previous, Some(1650806275));
    assert!(matches!(after_guard("ab12", EntryKind::Position, 1650806000, changed), Ok(None)));
    assert_eq!(guard.value, Some(1650806275));
    assert!(heartbeat.try_acquire(5));
}

#[test]
fn guarded_stream_keeps_order_and_drops_repeats() {
    let mut stream = GuardedStream::new();
    assert!(stream.append(10));
    assert!(!stream.append(10));
    assert!(!stream.append(9));
    assert!(stream.append(12));
    assert!(!stream.append(12));
    assert_eq!(stream.entries, vec![10, 12]);
    assert_eq!(stream.last_timestamp.value, Some(12));
}

#[test]
fn stream_entry_ids() {
    assert_eq!(stream_entry_id(1650806275).as_deref(), Some("1650806275000-0"));
    assert_eq!(stream_entry_id(0).as_deref(), Some("0-0"));
    assert_eq!(stream_entry_id(-5).as_deref(), Some("-5000-0"));
    assert_eq!(stream_entry_id(i64::MAX / 1000).as_deref(), Some("9223372036854775000-0"));
    assert_eq!(stream_entry_id(i64::MAX / 1000 + 1), None);
    assert_eq!(
        after_guard("t", EntryKind::Position, i64::MAX, true).err(),
        Some(TimestampOutOfRange { timestamp: i64::MAX })
    );
    let append = after_guard("T", EntryKind::Position, 7, true).ok().unwrap().unwrap();
    assert_eq!(append.key, "rusty:tractive:t:position");
    assert_eq!(append.id, "7000-0");
}

#[test]
fn duplicate_ids_are_recognised() {
    let message = "ERR The ID specified in XADD is equal or smaller than the target stream top item";
    assert!(is_duplicate_entry(true, message));
    assert!(!is_duplicate_entry(false, message));
    assert!(!is_duplicate_entry(true, "ERR wrong number of arguments"));
    assert!(is_duplicate_entry(true, DUPLICATE_ID_MESSAGE));
    assert!(!is_duplicate_entry(true, ""));
}

#[test]
fn hardware_fields() {
    let fields = vec![pair("battery", "51"), pair("ts", "1650806276")];
    let entry = HardwareEntry::from_fields(&fields).ok().unwrap();
    assert_eq!((entry.timestamp, entry.battery_level), (1650806276, 51));
    assert_eq!(HardwareEntry::from_fields(&vec![pair("battery", "51")]).err(), Some(FieldError::MissingTimestamp));
    assert_eq!(HardwareEntry::from_fields(&vec![pair("ts", "12x")]).err(), Some(FieldError::InvalidTimestamp));
    assert_eq!(HardwareEntry::from_fields(&vec![pair("ts", "")]).err(), Some(FieldError::InvalidTimestamp));
    assert_eq!(
        HardwareEntry::from_fields(&vec![pair("ts", "99999999999999999999")]).err(),
        Some(FieldError::InvalidTimestamp)
    );
    assert_eq!(HardwareEntry::from_fields(&vec![pair("ts", "1")]).err(), Some(FieldError::MissingBattery));
    assert_eq!(
        HardwareEntry::from_fields(&vec![pair("ts", "1"), pair("battery", "256")]).err(),
        Some(FieldError::InvalidBattery)
    );
    let back = HardwareEntry { timestamp: 0, battery_level: 255 }.into_fields();
    assert_eq!(back, vec![pair("ts", "0"), pair("battery", "255")]);
}

use rusty_home::ingest::{frame_appends, heartbeat_after, keep_alive_after, FrameKind, DEFAULT_KEEP_ALIVE_SECS};

#[test]
fn frames_of_the_channel() {
    let window = keep_alive_after(DEFAULT_KEEP_ALIVE_SECS, FrameKind::Handshake { keep_alive_ttl_secs: 300 });
    assert_eq!(window, 300);
    assert_eq!(keep_alive_after(window, FrameKind::KeepAlive), 300);
    assert_eq!(
        frame_appends(FrameKind::TrackerStatus { hardware: true, position: true }),
        vec![EntryKind::Hardware, EntryKind::Position]
    );
    assert_eq!(frame_appends(FrameKind::TrackerStatus { hardware: false, position: true }), vec![EntryKind::Position]);
    assert!(frame_appends(FrameKind::Other).is_empty());
    assert!(heartbeat_after(FrameKind::TrackerStatus { hardware: false, position: false }));
    assert!(!heartbeat_after(FrameKind::KeepAlive));
}
