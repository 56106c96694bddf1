//! Decoding of raw kernel input records into typed key events.
//!
//! A batch of records is decoded independently per record, and records that
//! fail to decode are dropped silently (permissive policy): a batch of `n`
//! raw records yields between `0` and `n` key events, in their original
//! order.

use crate::capability::EV_KEY;
use crate::error::KeyloggerError;
use crate::key_code::{key_code_for, KeyCode};
use vstd::prelude::*;

verus! {

/// One fixed-size record of the kernel's input-event ABI, with its fields as
/// plain values: the timestamp split into seconds and microseconds (wide
/// enough for both the 4- and 8-byte `time_t` layouts), the event type, the
/// event code and the event value.
#[derive(Copy, Clone, Debug, PartialEq, Eq, Structural)]
pub struct RawInputRecord {
    /// Seconds part of the timestamp.
    pub secs: i64,
    /// Microseconds part of the timestamp.
    pub usecs: i64,
    /// The event class of the record; only the key-event class decodes.
    pub event_type: u16,
    /// The event code; for a key record, the key code.
    pub code: u16,
    /// The event value; for a key record, release or press.
    pub value: i32,
}

/// Cap on the number of records one underlying read may return.
pub const MAX_INPUT_EVENTS: usize = 128;

/// The instant a key event fired: non-leap seconds since the Unix epoch and
/// nanoseconds since that second, as decoded from a raw record.
#[derive(Copy, Clone, Debug, PartialEq, Eq, Structural)]
pub struct EventTime {
    /// Seconds since the Unix epoch.
    pub secs: i64,
    /// Nanoseconds since the last whole second.
    pub nsecs: u32,
}

/// The action that triggered a key event.
#[derive(Copy, Clone, Debug, PartialEq, Eq, Structural)]
pub enum KeyEventCause {
    /// The key was pressed.
    Press,
    /// The key was released.
    Release,
}

/// A decoded key event: when it happened, whether the key went down or up,
/// and which key it was.
#[derive(Copy, Clone, Debug, PartialEq, Eq, Structural)]
pub struct KeyEvent {
    /// The timestamp of the event.
    pub ts: EventTime,
    /// The action that triggered the event.
    pub cause: KeyEventCause,
    /// The key that triggered the event.
    pub code: KeyCode,
}

/// The largest microseconds field whose nanosecond equivalent still fits the
/// decoded representation.
pub const MAX_DECODABLE_USECS: i64 = 4_294_967;

/// The smallest number of seconds the date-time library can represent.
pub const MIN_TIMESTAMP_SECS: i64 = -8_334_601_228_800;

/// The largest number of seconds the date-time library can represent.
pub const MAX_TIMESTAMP_SECS: i64 = 8_210_266_876_799;

/// Whether a seconds/nanoseconds pair is a representable date-time: the
/// seconds must lie in the representable range, and the nanosecond field must
/// stay below one second, or below two seconds on a leap-second boundary
/// (the last second of a minute).
pub open spec fn timestamp_in_range(secs: int, nsecs: int) -> bool {
    &&& MIN_TIMESTAMP_SECS <= secs <= MAX_TIMESTAMP_SECS
    &&& (nsecs < 1_000_000_000 || (nsecs < 2_000_000_000 && secs % 60 == 59))
}

/// Relies on `chrono::DateTime::<chrono::Utc>::from_timestamp`: per its
/// source it returns `Some` exactly when the seconds lie within chrono's
/// representable date range and the nanosecond field is below one second, a
/// second second being allowed only on a leap-second boundary.
#[verifier::external_body]
fn timestamp_representable(secs: i64, nsecs: u32) -> (r: bool)
    ensures
        r == timestamp_in_range(secs as int, nsecs as int),
{
    chrono::DateTime::<chrono::Utc>::from_timestamp(secs, nsecs).is_some()
}

/// What decoding one raw record yields: the key event, or the precise reason
/// the record is rejected. Rejections are checked in a fixed order: event
/// type first, then value, then timestamp, then key code.
pub open spec fn decode_spec(rec: RawInputRecord) -> Result<KeyEvent, KeyloggerError> {
    if rec.event_type != EV_KEY {
        Err(KeyloggerError::UnsupportedEventType(rec.event_type))
    } else if rec.value != 0 && rec.value != 1 {
        Err(KeyloggerError::InvalidKeyEvent(rec.value))
    } else if !(0 <= rec.usecs <= MAX_DECODABLE_USECS) || !timestamp_in_range(
        rec.secs as int,
        rec.usecs * 1000,
    ) {
        Err(KeyloggerError::InvalidTimestamp(rec.secs, rec.usecs))
    } else {
        match key_code_for(rec.code) {
            None => Err(KeyloggerError::InvalidKeyCode(rec.code)),
            Some(code) => Ok(
                KeyEvent {
                    ts: EventTime { secs: rec.secs, nsecs: (rec.usecs * 1000) as u32 },
                    cause: if rec.value == 1 {
                        KeyEventCause::Press
                    } else {
                        KeyEventCause::Release
                    },
                    code,
                },
            ),
        }
    }
}

impl KeyEvent {
    /// Decode one raw record into a key event, or reject it. The rejection
    /// is local to the record and never fatal to the stream it came from.
    pub fn decode(rec: &RawInputRecord) -> (r: Result<KeyEvent, KeyloggerError>)
        ensures
            r == decode_spec(*rec),
    {
        if rec.event_type != EV_KEY {
            return Err(KeyloggerError::UnsupportedEventType(rec.event_type));
        }
        let cause = if rec.value == 1 {
            KeyEventCause::Press
        } else if rec.value == 0 {
            KeyEventCause::Release
        } else {
            return Err(KeyloggerError::InvalidKeyEvent(rec.value));
        };
        if rec.usecs < 0 || rec.usecs > MAX_DECODABLE_USECS {
            return Err(KeyloggerError::InvalidTimestamp(rec.secs, rec.usecs));
        }
        let nsecs = (rec.usecs * 1000) as u32;
        if !timestamp_representable(rec.secs, nsecs) {
            return Err(KeyloggerError::InvalidTimestamp(rec.secs, rec.usecs));
        }
        match KeyCode::try_from_code(rec.code) {
            Err(e) => Err(e),
            Ok(code) => Ok(KeyEvent { ts: EventTime { secs: rec.secs, nsecs }, cause, code }),
        }
    }
}

/// Law: a record whose type is not the key-event type never decodes into a
/// key event; it always fails as an unsupported event type.
pub proof fn lemma_non_key_type_rejected(rec: RawInputRecord)
    requires
        rec.event_type != EV_KEY,
    ensures
        decode_spec(rec) == Err::<KeyEvent, KeyloggerError>(
            KeyloggerError::UnsupportedEventType(rec.event_type),
        ),
{
}

/// Law: a record whose value is neither a release nor a press never decodes
/// into a key event, whatever its code; when its type is the key-event type
/// the failure is precisely the invalid-event error.
pub proof fn lemma_invalid_value_rejected(rec: RawInputRecord)
    requires
        rec.value != 0,
        rec.value != 1,
    ensures
        decode_spec(rec) is Err,
        rec.event_type == EV_KEY ==> decode_spec(rec) == Err::<KeyEvent, KeyloggerError>(
            KeyloggerError::InvalidKeyEvent(rec.value),
        ),
{
}

/// The events a whole batch of raw records decodes to: each record decoded
/// independently, failures dropped, order preserved.
pub open spec fn decoded_events(recs: Seq<RawInputRecord>) -> Seq<KeyEvent>
    decreases recs.len(),
{
    if recs.len() == 0 {
        Seq::empty()
    } else {
        let rest = decoded_events(recs.drop_first());
        match decode_spec(recs[0]) {
            Ok(ev) => seq![ev] + rest,
            Err(_) => rest,
        }
    }
}

proof fn lemma_decoded_events_snoc(recs: Seq<RawInputRecord>, rec: RawInputRecord)
    ensures
        decoded_events(recs.push(rec)) == decoded_events(recs) + (match decode_spec(rec) {
            Ok(ev) => seq![ev],
            Err(_) => Seq::<KeyEvent>::empty(),
        }),
    decreases recs.len(),
{
    let tail = match decode_spec(rec) {
        Ok(ev) => seq![ev],
        Err(_) => Seq::<KeyEvent>::empty(),
    };
    let p = recs.push(rec);
    if recs.len() == 0 {
        assert(p[0] == rec);
        assert(p.drop_first() =~= Seq::<RawInputRecord>::empty());
        assert(decoded_events(p.drop_first()) =~= Seq::<KeyEvent>::empty());
        assert(decoded_events(p) =~= decoded_events(recs) + tail);
    } else {
        lemma_decoded_events_snoc(recs.drop_first(), rec);
        assert(p[0] == recs[0]);
        assert(p.drop_first() =~= recs.drop_first().push(rec));
        assert(decoded_events(p.drop_first()) == decoded_events(recs.drop_first()) + tail);
        match decode_spec(recs[0]) {
            Ok(ev) => {
                assert(decoded_events(p) =~= seq![ev] + (decoded_events(recs.drop_first())
                    + tail));
                assert(decoded_events(recs) + tail =~= seq![ev] + (decoded_events(
                    recs.drop_first(),
                ) + tail));
            },
            Err(_) => {
                assert(decoded_events(p) =~= decoded_events(recs) + tail);
            },
        }
    }
}

/// Decode a batch of raw records. Records that fail to decode are dropped
/// silently (the permissive policy); the events that remain keep their
/// original order.
pub fn decode_batch(recs: &Vec<RawInputRecord>) -> (evs: Vec<KeyEvent>)
    ensures
        evs@ == decoded_events(recs@),
{
    let mut evs: Vec<KeyEvent> = Vec::new();
    let mut i: usize = 0;
    while i < recs.len()
        invariant
            i <= recs.len(),
            evs@ == decoded_events(recs@.take(i as int)),
        decreases recs.len() - i,
    {
        proof {
            assert(recs@.take(i as int).push(recs@[i as int]) =~= recs@.take(i + 1));
            lemma_decoded_events_snoc(recs@.take(i as int), recs@[i as int]);
        }
        match KeyEvent::decode(&recs[i]) {
            Ok(ev) => {
                evs.push(ev);
                assert(evs@ =~= decoded_events(recs@.take(i + 1)));
            },
            Err(_) => {
                assert(evs@ =~= decoded_events(recs@.take(i + 1)));
            },
        }
        i += 1;
    }
    proof {
        assert(recs@.take(recs@.len() as int) =~= recs@);
    }
    evs
}

/// How many whole records a read of `bytes_read` bytes yielded: partial
/// trailing bytes are discarded.
pub fn record_count(bytes_read: usize, record_size: usize) -> (n: usize)
    requires
        record_size > 0,
    ensures
        n == bytes_read as int / record_size as int,
        n * record_size <= bytes_read < (n + 1) * record_size,
{
    let n = bytes_read / record_size;
    proof {
        assert(n * record_size <= bytes_read < (n + 1) * record_size) by (nonlinear_arith)
            requires
                record_size > 0,
                n == bytes_read as int / record_size as int,
        ;
    }
    n
}

} // verus!
