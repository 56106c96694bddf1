use keylogger::capability::{
    device_name_from_bytes, eviocgbit_request, eviocgname_request, has_keyboard_flags,
    DEVICE_NAME_MAX_LEN, KEYBOARD_FLAGS,
};

const SYN_BIT: u64 = 1 << 0x00;
const KEY_BIT: u64 = 1 << 0x01;
const MSC_BIT: u64 = 1 << 0x04;
const REP_BIT: u64 = 1 << 0x14;

#[test]
fn accepts_exact_keyboard_mask() {
    assert!(has_keyboard_flags(SYN_BIT | KEY_BIT | MSC_BIT | REP_BIT));
    assert_eq!(KEYBOARD_FLAGS, SYN_BIT | KEY_BIT | MSC_BIT | REP_BIT);
}

#[test]
fn accepts_mask_with_extra_bits() {
    assert!(has_keyboard_flags(u64::MAX));
    assert!(has_keyboard_flags(KEYBOARD_FLAGS | (1 << 2) | (1 << 3) | (1 << 63)));
}

#[test]
fn rejects_mask_missing_any_required_bit() {
    assert!(!has_keyboard_flags(0));
    assert!(!has_keyboard_flags(KEY_BIT | MSC_BIT | REP_BIT));
    assert!(!has_keyboard_flags(SYN_BIT | MSC_BIT | REP_BIT));
    assert!(!has_keyboard_flags(SYN_BIT | KEY_BIT | REP_BIT));
    assert!(!has_keyboard_flags(SYN_BIT | KEY_BIT | MSC_BIT));
    // A mouse-like device: sync and key but no autorepeat.
    assert!(!has_keyboard_flags(SYN_BIT | KEY_BIT | MSC_BIT | (1 << 2)));
}

#[test]
fn name_request_matches_kernel_encoding() {
    assert_eq!(eviocgname_request(DEVICE_NAME_MAX_LEN as u64), 0x8200_4506);
}

#[test]
fn bitmask_request_matches_kernel_encoding() {
    // An 8-byte bitmask payload, as read on a 64-bit platform.
    assert_eq!(eviocgbit_request(8), 0x8008_4520);
}

#[test]
fn device_name_stops_at_first_nul() {
    let mut buf = [0u8; 16];
    buf[..13].copy_from_slice(b"USB Keyboard\0");
    buf[14] = b'x';
    assert_eq!(device_name_from_bytes(&buf), "USB Keyboard");
}

#[test]
fn device_name_without_nul_is_whole_buffer() {
    assert_eq!(device_name_from_bytes(b"abc"), "abc");
    assert_eq!(device_name_from_bytes(b""), "");
}

#[test]
fn device_name_replaces_invalid_bytes() {
    let buf = [b'k', 0xFF, b'b', 0, b'z'];
    assert_eq!(device_name_from_bytes(&buf), "k\u{FFFD}b");
}
