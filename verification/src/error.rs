//! The error taxonomy of the library.

use vstd::prelude::*;

verus! {

/// Everything that can go wrong while discovering keyboards, decoding raw
/// input records, or running a capture session.
///
/// Per-record decode failures (`InvalidKeyEvent`, `InvalidKeyCode`,
/// `InvalidTimestamp`, `UnsupportedEventType`) are local to one record and
/// never end a stream. `NoDevicesFound` and I/O failures at discovery time
/// are fatal to session construction. `KeyloggerTasksExited` is the terminal
/// condition of a fully drained capture session, not a fault of any single
/// device.
#[derive(Debug, Clone, PartialEq)]
pub enum KeyloggerError {
    /// An operating-system I/O failure, carrying its rendered message.
    Io(String),
    /// Discovery (or explicit-list filtering) produced zero keyboards.
    NoDevicesFound,
    /// The named device path failed the capability filter.
    NotAKeyboard(String),
    /// A key record whose `value` is neither a press nor a release; carries
    /// the offending value.
    InvalidKeyEvent(i32),
    /// A key record whose `code` maps to no known key; carries the code.
    InvalidKeyCode(u16),
    /// A record whose timestamp cannot be represented; carries the raw
    /// seconds and microseconds fields.
    InvalidTimestamp(i64, i64),
    /// A record whose `event_type` is not the key-event type; carries the
    /// type.
    UnsupportedEventType(u16),
    /// Every per-device capture task has ended.
    KeyloggerTasksExited,
}

} // verus!
