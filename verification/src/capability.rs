//! The capability filter: deciding from a kernel-reported event-type bitmask
//! whether a device behaves like a keyboard, and building the control
//! requests used to query a device.

use vstd::prelude::*;
use vstd::slice::slice_subrange;

verus! {

/// Event-class bit positions from the kernel's input-event ABI: synthetic
/// reports, key events, miscellaneous events and autorepeat.
pub const EV_SYN: u16 = 0x00;

/// Bit position of the key-event class; also the `event_type` value of a key
/// record.
pub const EV_KEY: u16 = 0x01;

/// Bit position of the miscellaneous-event class.
pub const EV_MSC: u16 = 0x04;

/// Bit position of the autorepeat class.
pub const EV_REP: u16 = 0x14;

/// The bitmask a keyboard must fully contain: sync, key, miscellaneous and
/// autorepeat classes all supported.
pub const KEYBOARD_FLAGS: u64 = (1u64 << 0x00) | (1u64 << 0x01) | (1u64 << 0x04) | (1u64 << 0x14);

/// Whether `flags` reports support for the event class at bit position
/// `class`.
pub open spec fn supports_class(flags: u64, class: u16) -> bool {
    flags & (1u64 << class) != 0
}

/// Whether a capability bitmask qualifies a device as a keyboard: each of the
/// four required event classes must be present. Extra bits never disqualify,
/// and a single missing required bit always does.
pub open spec fn is_keyboard_bitmask(flags: u64) -> bool {
    &&& supports_class(flags, EV_SYN)
    &&& supports_class(flags, EV_KEY)
    &&& supports_class(flags, EV_MSC)
    &&& supports_class(flags, EV_REP)
}

/// Decide whether a device whose capability query reported `flags` is a
/// keyboard.
pub fn has_keyboard_flags(flags: u64) -> (r: bool)
    ensures
        r == is_keyboard_bitmask(flags),
{
    proof {
        lemma_keyboard_mask_containment(flags);
    }
    flags & KEYBOARD_FLAGS == KEYBOARD_FLAGS
}

/// Containing the whole required mask is the same as supporting each of the
/// four required event classes one by one.
pub proof fn lemma_keyboard_mask_containment(flags: u64)
    ensures
        (flags & KEYBOARD_FLAGS == KEYBOARD_FLAGS) == is_keyboard_bitmask(flags),
{
    assert((flags & ((1u64 << 0x00) | (1u64 << 0x01) | (1u64 << 0x04) | (1u64 << 0x14))
        == ((1u64 << 0x00) | (1u64 << 0x01) | (1u64 << 0x04) | (1u64 << 0x14))) == (flags & (1u64
        << 0x00u16) != 0 && flags & (1u64 << 0x01u16) != 0 && flags & (1u64 << 0x04u16) != 0
        && flags & (1u64 << 0x14u16) != 0)) by (bit_vector);
}

/// Field widths and shifts of the kernel's ioctl request encoding.
pub const IOC_NRBITS: u64 = 8;

/// Width of the type field of an ioctl request.
pub const IOC_TYPEBITS: u64 = 8;

/// Width of the size field of an ioctl request.
pub const IOC_SIZEBITS: u64 = 14;

/// Shift of the request-number field.
pub const IOC_NRSHIFT: u64 = 0;

/// Shift of the type field.
pub const IOC_TYPESHIFT: u64 = IOC_NRSHIFT + IOC_NRBITS;

/// Shift of the size field.
pub const IOC_SIZESHIFT: u64 = IOC_TYPESHIFT + IOC_TYPEBITS;

/// Shift of the direction field.
pub const IOC_DIRSHIFT: u64 = IOC_SIZESHIFT + IOC_SIZEBITS;

/// Direction value of a read request.
pub const IOC_READ: u64 = 2;

/// The type field of the event-device ioctl family: the character `E`.
pub const IOC_EV_TYPE: u64 = 0x45;

/// The request number of the name query.
pub const EVIOCGNAME_NR: u64 = 0x06;

/// The request number of the capability-bitmask query.
pub const EVIOCGBIT_NR: u64 = 0x20;

/// The read request of the event-device ioctl family with request number
/// `nr` and payload size `size`, laid out field by field as the kernel ABI
/// packs them.
pub open spec fn ioctl_read_request(nr: u64, size: u64) -> u64 {
    (IOC_READ << IOC_DIRSHIFT) | (IOC_EV_TYPE << IOC_TYPESHIFT) | (nr << IOC_NRSHIFT) | (size
        << IOC_SIZESHIFT)
}

/// Build the request that queries a device's human-readable name into a
/// buffer of `len` bytes.
pub fn eviocgname_request(len: u64) -> (r: u64)
    requires
        len < (1u64 << 14),
    ensures
        r == ioctl_read_request(EVIOCGNAME_NR, len),
{
    (IOC_READ << IOC_DIRSHIFT) | (IOC_EV_TYPE << IOC_TYPESHIFT) | (EVIOCGNAME_NR << IOC_NRSHIFT) | (
    len << IOC_SIZESHIFT)
}

/// Build the request that queries a device's supported-event-type bitmask
/// into a payload of `size` bytes.
pub fn eviocgbit_request(size: u64) -> (r: u64)
    requires
        size < (1u64 << 14),
    ensures
        r == ioctl_read_request(EVIOCGBIT_NR, size),
{
    (IOC_READ << IOC_DIRSHIFT) | (IOC_EV_TYPE << IOC_TYPESHIFT) | (EVIOCGBIT_NR << IOC_NRSHIFT) | (
    size << IOC_SIZESHIFT)
}

/// Bound on the length of a device name query.
pub const DEVICE_NAME_MAX_LEN: usize = 512;

/// How many leading bytes of a raw name buffer belong to the name: everything
/// before the first NUL terminator, or the whole buffer if none occurs.
pub open spec fn name_prefix_len(bytes: Seq<u8>) -> int
    decreases bytes.len(),
{
    if bytes.len() == 0 {
        0
    } else if bytes[0] == 0 {
        0
    } else {
        1 + name_prefix_len(bytes.drop_first())
    }
}

proof fn lemma_name_prefix_len_props(bytes: Seq<u8>)
    ensures
        0 <= name_prefix_len(bytes) <= bytes.len(),
        forall|j: int| 0 <= j < name_prefix_len(bytes) ==> bytes[j] != 0,
        name_prefix_len(bytes) < bytes.len() ==> bytes[name_prefix_len(bytes)] == 0,
    decreases bytes.len(),
{
    if bytes.len() == 0 || bytes[0] == 0 {
    } else {
        let rest = bytes.drop_first();
        lemma_name_prefix_len_props(rest);
        assert forall|j: int| 0 <= j < name_prefix_len(bytes) implies bytes[j] != 0 by {
            if j > 0 {
                assert(rest[j - 1] == bytes[j]);
            }
        }
        if name_prefix_len(bytes) < bytes.len() {
            assert(rest[name_prefix_len(rest)] == bytes[name_prefix_len(bytes)]);
        }
    }
}

/// A name for what `String::from_utf8_lossy` yields on a given byte
/// sequence.
pub uninterp spec fn utf8_lossy(bytes: Seq<u8>) -> Seq<char>;

/// Relies on `String::from_utf8_lossy`: the decoding depends on the bytes
/// alone, replacing invalid sequences instead of rejecting them.
#[verifier::external_body]
fn lossy_string(bytes: &[u8]) -> (r: String)
    ensures
        r@ == utf8_lossy(bytes@),
{
    String::from_utf8_lossy(bytes).into_owned()
}

/// The human-readable device name held in a raw name-query buffer: the bytes
/// up to the first NUL terminator, decoded permissively.
pub fn device_name_from_bytes(bytes: &[u8]) -> (r: String)
    ensures
        r@ == utf8_lossy(bytes@.take(name_prefix_len(bytes@))),
{
    proof {
        lemma_name_prefix_len_props(bytes@);
    }
    let mut i: usize = 0;
    while i < bytes.len() && bytes[i] != 0
        invariant
            i <= bytes@.len(),
            forall|j: int| 0 <= j < i ==> bytes@[j] != 0,
        decreases bytes@.len() - i,
    {
        i += 1;
    }
    proof {
        let n = name_prefix_len(bytes@);
        if n < i {
            assert(bytes@[n] != 0);
        }
        if i < n {
            assert(bytes@[i as int] != 0);
        }
        assert(i == n);
    }
    let prefix = slice_subrange(bytes, 0, i);
    proof {
        assert(prefix@ =~= bytes@.take(name_prefix_len(bytes@)));
    }
    lossy_string(prefix)
}

} // verus!
