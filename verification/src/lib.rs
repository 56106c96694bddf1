//! Capture of keystroke events from Linux input devices.
//!
//! The library models the kernel's input-event ABI: it decides which devices
//! qualify as keyboards from their capability bitmask, decodes raw input
//! records into typed key events, buffers decoded batches so a consumer sees
//! one event at a time, and drives the per-device dispatch loop that routes
//! batches and errors to a caller-supplied handler policy.

pub mod capability;
pub mod error;
pub mod event;
pub mod key_code;
pub mod session;
pub mod stream;

pub use capability::has_keyboard_flags;
pub use error::KeyloggerError;
pub use event::{KeyEvent, KeyEventCause};
pub use key_code::KeyCode;
pub use session::{ErrDecision, TaskAction, TaskEvent, TaskLog};
pub use stream::{EventBuffer, ReadOutcome, StreamStep};

use vstd::prelude::*;

verus! {

/// The usual result type of this library.
pub type KeyloggerResult<T> = Result<T, KeyloggerError>;

} // verus!
