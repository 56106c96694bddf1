use keylogger::event::{
    record_count, EventTime, KeyEvent, KeyEventCause, RawInputRecord, MAX_TIMESTAMP_SECS,
    MIN_TIMESTAMP_SECS,
};
use keylogger::{KeyCode, KeyloggerError};

fn key_record(secs: i64, usecs: i64, code: u16, value: i32) -> RawInputRecord {
    RawInputRecord { secs, usecs, event_type: 1, code, value }
}

#[test]
fn decodes_press_and_release() {
    let press = KeyEvent::decode(&key_record(1_600_000_000, 250_000, 30, 1)).unwrap();
    assert_eq!(
        press,
        KeyEvent {
            ts: EventTime { secs: 1_600_000_000, nsecs: 250_000_000 },
            cause: KeyEventCause::Press,
            code: KeyCode::KEY_A,
        }
    );
    let release = KeyEvent::decode(&key_record(0, 0, 44, 0)).unwrap();
    assert_eq!(release.cause, KeyEventCause::Release);
    assert_eq!(release.code, KeyCode::KEY_Z);
    assert_eq!(release.ts, EventTime { secs: 0, nsecs: 0 });
}

#[test]
fn rejects_non_key_event_type() {
    // A sync record, a miscellaneous record and an arbitrary type: all fail
    // as unsupported, never as anything else, whatever their other fields.
    for ty in [0u16, 4, 2, 0x15, u16::MAX] {
        let rec = RawInputRecord { secs: 0, usecs: 0, event_type: ty, code: 30, value: 1 };
        assert_eq!(
            KeyEvent::decode(&rec),
            Err(KeyloggerError::UnsupportedEventType(ty))
        );
    }
}

#[test]
fn rejects_value_outside_press_release() {
    // 2 is the kernel's autorepeat value; it and anything else fail.
    for value in [2, -1, 3, i32::MAX, i32::MIN] {
        let rec = key_record(0, 0, 30, value);
        assert_eq!(KeyEvent::decode(&rec), Err(KeyloggerError::InvalidKeyEvent(value)));
    }
}

#[test]
fn rejects_negative_microseconds() {
    let rec = key_record(5, -1, 30, 1);
    assert_eq!(KeyEvent::decode(&rec), Err(KeyloggerError::InvalidTimestamp(5, -1)));
}

#[test]
fn rejects_microseconds_too_large_for_nanoseconds() {
    // 4_294_968 us * 1000 no longer fits the nanosecond field.
    let rec = key_record(5, 4_294_968, 30, 1);
    assert_eq!(
        KeyEvent::decode(&rec),
        Err(KeyloggerError::InvalidTimestamp(5, 4_294_968))
    );
    assert!(KeyEvent::decode(&key_record(5, 4_294_967, 30, 1)).is_err());
    assert!(KeyEvent::decode(&key_record(5, 999_999, 30, 1)).is_ok());
}

#[test]
fn seconds_range_matches_date_library() {
    assert!(KeyEvent::decode(&key_record(MAX_TIMESTAMP_SECS, 0, 30, 1)).is_ok());
    assert_eq!(
        KeyEvent::decode(&key_record(MAX_TIMESTAMP_SECS + 1, 0, 30, 1)),
        Err(KeyloggerError::InvalidTimestamp(MAX_TIMESTAMP_SECS + 1, 0))
    );
    assert!(KeyEvent::decode(&key_record(MIN_TIMESTAMP_SECS, 0, 30, 1)).is_ok());
    assert_eq!(
        KeyEvent::decode(&key_record(MIN_TIMESTAMP_SECS - 1, 0, 30, 1)),
        Err(KeyloggerError::InvalidTimestamp(MIN_TIMESTAMP_SECS - 1, 0))
    );
}

#[test]
fn oversized_nanoseconds_only_on_leap_second_boundary() {
    // 1_200_000 us becomes 1.2 s of nanoseconds: representable only on the
    // last second of a minute.
    assert!(KeyEvent::decode(&key_record(59, 1_200_000, 30, 1)).is_ok());
    assert_eq!(
        KeyEvent::decode(&key_record(60, 1_200_000, 30, 1)),
        Err(KeyloggerError::InvalidTimestamp(60, 1_200_000))
    );
    // Two whole seconds of nanoseconds is never representable.
    assert_eq!(
        KeyEvent::decode(&key_record(59, 2_000_000, 30, 1)),
        Err(KeyloggerError::InvalidTimestamp(59, 2_000_000))
    );
    // Before the epoch the boundary is still the last second of a minute:
    // -1 s is 23:59:59 of the previous day.
    assert!(KeyEvent::decode(&key_record(-1, 1_200_000, 30, 1)).is_ok());
    assert!(KeyEvent::decode(&key_record(-2, 1_200_000, 30, 1)).is_err());
}

#[test]
fn rejects_unmapped_key_code() {
    // 84 is the hole in the standard keyboard range.
    let rec = key_record(0, 0, 84, 1);
    assert_eq!(KeyEvent::decode(&rec), Err(KeyloggerError::InvalidKeyCode(84)));
    let rec = key_record(0, 0, 128, 1);
    assert_eq!(KeyEvent::decode(&rec), Err(KeyloggerError::InvalidKeyCode(128)));
}

#[test]
fn batch_keeps_valid_records_in_order() {
    // One malformed record interleaved with two valid ones: the decoded
    // batch holds exactly the two valid events, in their original order, and
    // the malformed record contributes nothing (the permissive policy).
    let batch = vec![
        key_record(1, 0, 30, 1),
        key_record(2, 0, 30, 7),
        key_record(3, 0, 30, 0),
    ];
    let evs = keylogger::event::decode_batch(&batch);
    assert_eq!(evs.len(), 2);
    assert_eq!(evs[0].ts.secs, 1);
    assert_eq!(evs[0].cause, KeyEventCause::Press);
    assert_eq!(evs[1].ts.secs, 3);
    assert_eq!(evs[1].cause, KeyEventCause::Release);
}

#[test]
fn batch_of_only_bad_records_is_empty() {
    let batch = vec![
        RawInputRecord { secs: 0, usecs: 0, event_type: 0, code: 0, value: 0 },
        key_record(0, 0, 84, 1),
    ];
    assert!(keylogger::event::decode_batch(&batch).is_empty());
}

#[test]
fn record_count_discards_partial_trailing_bytes() {
    assert_eq!(record_count(0, 24), 0);
    assert_eq!(record_count(23, 24), 0);
    assert_eq!(record_count(24, 24), 1);
    assert_eq!(record_count(3 * 24 + 5, 24), 3);
    assert_eq!(record_count(48, 16), 3);
}
