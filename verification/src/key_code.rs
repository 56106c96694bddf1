//! The closed key-code table: the set of key identifiers this library
//! knows, matching the kernel's key-code numbering for the standard
//! keyboard range. A raw record whose `code` falls outside the table is a
//! decode failure, never a crash.

use crate::error::KeyloggerError;
use vstd::prelude::*;

verus! {

/// A key on the keyboard, named as the kernel names it.
#[allow(non_camel_case_types)]
#[derive(Copy, Clone, Debug, PartialEq, Eq, Structural)]
pub enum KeyCode {
    /// Kernel code 1.
    KEY_ESC,
    /// Kernel code 2.
    KEY_1,
    /// Kernel code 3.
    KEY_2,
    /// Kernel code 4.
    KEY_3,
    /// Kernel code 5.
    KEY_4,
    /// Kernel code 6.
    KEY_5,
    /// Kernel code 7.
    KEY_6,
    /// Kernel code 8.
    KEY_7,
    /// Kernel code 9.
    KEY_8,
    /// Kernel code 10.
    KEY_9,
    /// Kernel code 11.
    KEY_0,
    /// Kernel code 12.
    KEY_MINUS,
    /// Kernel code 13.
    KEY_EQUAL,
    /// Kernel code 14.
    KEY_BACKSPACE,
    /// Kernel code 15.
    KEY_TAB,
    /// Kernel code 16.
    KEY_Q,
    /// Kernel code 17.
    KEY_W,
    /// Kernel code 18.
    KEY_E,
    /// Kernel code 19.
    KEY_R,
    /// Kernel code 20.
    KEY_T,
    /// Kernel code 21.
    KEY_Y,
    /// Kernel code 22.
    KEY_U,
    /// Kernel code 23.
    KEY_I,
    /// Kernel code 24.
    KEY_O,
    /// Kernel code 25.
    KEY_P,
    /// Kernel code 26.
    KEY_LEFTBRACE,
    /// Kernel code 27.
    KEY_RIGHTBRACE,
    /// Kernel code 28.
    KEY_ENTER,
    /// Kernel code 29.
    KEY_LEFTCTRL,
    /// Kernel code 30.
    KEY_A,
    /// Kernel code 31.
    KEY_S,
    /// Kernel code 32.
    KEY_D,
    /// Kernel code 33.
    KEY_F,
    /// Kernel code 34.
    KEY_G,
    /// Kernel code 35.
    KEY_H,
    /// Kernel code 36.
    KEY_J,
    /// Kernel code 37.
    KEY_K,
    /// Kernel code 38.
    KEY_L,
    /// Kernel code 39.
    KEY_SEMICOLON,
    /// Kernel code 40.
    KEY_APOSTROPHE,
    /// Kernel code 41.
    KEY_GRAVE,
    /// Kernel code 42.
    KEY_LEFTSHIFT,
    /// Kernel code 43.
    KEY_BACKSLASH,
    /// Kernel code 44.
    KEY_Z,
    /// Kernel code 45.
    KEY_X,
    /// Kernel code 46.
    KEY_C,
    /// Kernel code 47.
    KEY_V,
    /// Kernel code 48.
    KEY_B,
    /// Kernel code 49.
    KEY_N,
    /// Kernel code 50.
    KEY_M,
    /// Kernel code 51.
    KEY_COMMA,
    /// Kernel code 52.
    KEY_DOT,
    /// Kernel code 53.
    KEY_SLASH,
    /// Kernel code 54.
    KEY_RIGHTSHIFT,
    /// Kernel code 55.
    KEY_KPASTERISK,
    /// Kernel code 56.
    KEY_LEFTALT,
    /// Kernel code 57.
    KEY_SPACE,
    /// Kernel code 58.
    KEY_CAPSLOCK,
    /// Kernel code 59.
    KEY_F1,
    /// Kernel code 60.
    KEY_F2,
    /// Kernel code 61.
    KEY_F3,
    /// Kernel code 62.
    KEY_F4,
    /// Kernel code 63.
    KEY_F5,
    /// Kernel code 64.
    KEY_F6,
    /// Kernel code 65.
    KEY_F7,
    /// Kernel code 66.
    KEY_F8,
    /// Kernel code 67.
    KEY_F9,
    /// Kernel code 68.
    KEY_F10,
    /// Kernel code 69.
    KEY_NUMLOCK,
    /// Kernel code 70.
    KEY_SCROLLLOCK,
    /// Kernel code 71.
    KEY_KP7,
    /// Kernel code 72.
    KEY_KP8,
    /// Kernel code 73.
    KEY_KP9,
    /// Kernel code 74.
    KEY_KPMINUS,
    /// Kernel code 75.
    KEY_KP4,
    /// Kernel code 76.
    KEY_KP5,
    /// Kernel code 77.
    KEY_KP6,
    /// Kernel code 78.
    KEY_KPPLUS,
    /// Kernel code 79.
    KEY_KP1,
    /// Kernel code 80.
    KEY_KP2,
    /// Kernel code 81.
    KEY_KP3,
    /// Kernel code 82.
    KEY_KP0,
    /// Kernel code 83.
    KEY_KPDOT,
    /// Kernel code 85.
    KEY_ZENKAKUHANKAKU,
    /// Kernel code 86.
    KEY_102ND,
    /// Kernel code 87.
    KEY_F11,
    /// Kernel code 88.
    KEY_F12,
    /// Kernel code 89.
    KEY_RO,
    /// Kernel code 90.
    KEY_KATAKANA,
    /// Kernel code 91.
    KEY_HIRAGANA,
    /// Kernel code 92.
    KEY_HENKAN,
    /// Kernel code 93.
    KEY_KATAKANAHIRAGANA,
    /// Kernel code 94.
    KEY_MUHENKAN,
    /// Kernel code 95.
    KEY_KPJPCOMMA,
    /// Kernel code 96.
    KEY_KPENTER,
    /// Kernel code 97.
    KEY_RIGHTCTRL,
    /// Kernel code 98.
    KEY_KPSLASH,
    /// Kernel code 99.
    KEY_SYSRQ,
    /// Kernel code 100.
    KEY_RIGHTALT,
    /// Kernel code 101.
    KEY_LINEFEED,
    /// Kernel code 102.
    KEY_HOME,
    /// Kernel code 103.
    KEY_UP,
    /// Kernel code 104.
    KEY_PAGEUP,
    /// Kernel code 105.
    KEY_LEFT,
    /// Kernel code 106.
    KEY_RIGHT,
    /// Kernel code 107.
    KEY_END,
    /// Kernel code 108.
    KEY_DOWN,
    /// Kernel code 109.
    KEY_PAGEDOWN,
    /// Kernel code 110.
    KEY_INSERT,
    /// Kernel code 111.
    KEY_DELETE,
    /// Kernel code 112.
    KEY_MACRO,
    /// Kernel code 113.
    KEY_MUTE,
    /// Kernel code 114.
    KEY_VOLUMEDOWN,
    /// Kernel code 115.
    KEY_VOLUMEUP,
    /// Kernel code 116.
    KEY_POWER,
    /// Kernel code 117.
    KEY_KPEQUAL,
    /// Kernel code 118.
    KEY_KPPLUSMINUS,
    /// Kernel code 119.
    KEY_PAUSE,
    /// Kernel code 120.
    KEY_SCALE,
    /// Kernel code 121.
    KEY_KPCOMMA,
    /// Kernel code 122.
    KEY_HANGEUL,
    /// Kernel code 123.
    KEY_HANJA,
    /// Kernel code 124.
    KEY_YEN,
    /// Kernel code 125.
    KEY_LEFTMETA,
    /// Kernel code 126.
    KEY_RIGHTMETA,
    /// Kernel code 127.
    KEY_COMPOSE,
}

/// The kernel code of a key.
pub open spec fn key_code_value(k: KeyCode) -> u16 {
    match k {
        KeyCode::KEY_ESC => 1,
        KeyCode::KEY_1 => 2,
        KeyCode::KEY_2 => 3,
        KeyCode::KEY_3 => 4,
        KeyCode::KEY_4 => 5,
        KeyCode::KEY_5 => 6,
        KeyCode::KEY_6 => 7,
        KeyCode::KEY_7 => 8,
        KeyCode::KEY_8 => 9,
        KeyCode::KEY_9 => 10,
        KeyCode::KEY_0 => 11,
        KeyCode::KEY_MINUS => 12,
        KeyCode::KEY_EQUAL => 13,
        KeyCode::KEY_BACKSPACE => 14,
        KeyCode::KEY_TAB => 15,
        KeyCode::KEY_Q => 16,
        KeyCode::KEY_W => 17,
        KeyCode::KEY_E => 18,
        KeyCode::KEY_R => 19,
        KeyCode::KEY_T => 20,
        KeyCode::KEY_Y => 21,
        KeyCode::KEY_U => 22,
        KeyCode::KEY_I => 23,
        KeyCode::KEY_O => 24,
        KeyCode::KEY_P => 25,
        KeyCode::KEY_LEFTBRACE => 26,
        KeyCode::KEY_RIGHTBRACE => 27,
        KeyCode::KEY_ENTER => 28,
        KeyCode::KEY_LEFTCTRL => 29,
        KeyCode::KEY_A => 30,
        KeyCode::KEY_S => 31,
        KeyCode::KEY_D => 32,
        KeyCode::KEY_F => 33,
        KeyCode::KEY_G => 34,
        KeyCode::KEY_H => 35,
        KeyCode::KEY_J => 36,
        KeyCode::KEY_K => 37,
        KeyCode::KEY_L => 38,
        KeyCode::KEY_SEMICOLON => 39,
        KeyCode::KEY_APOSTROPHE => 40,
        KeyCode::KEY_GRAVE => 41,
        KeyCode::KEY_LEFTSHIFT => 42,
        KeyCode::KEY_BACKSLASH => 43,
        KeyCode::KEY_Z => 44,
        KeyCode::KEY_X => 45,
        KeyCode::KEY_C => 46,
        KeyCode::KEY_V => 47,
        KeyCode::KEY_B => 48,
        KeyCode::KEY_N => 49,
        KeyCode::KEY_M => 50,
        KeyCode::KEY_COMMA => 51,
        KeyCode::KEY_DOT => 52,
        KeyCode::KEY_SLASH => 53,
        KeyCode::KEY_RIGHTSHIFT => 54,
        KeyCode::KEY_KPASTERISK => 55,
        KeyCode::KEY_LEFTALT => 56,
        KeyCode::KEY_SPACE => 57,
        KeyCode::KEY_CAPSLOCK => 58,
        KeyCode::KEY_F1 => 59,
        KeyCode::KEY_F2 => 60,
        KeyCode::KEY_F3 => 61,
        KeyCode::KEY_F4 => 62,
        KeyCode::KEY_F5 => 63,
        KeyCode::KEY_F6 => 64,
        KeyCode::KEY_F7 => 65,
        KeyCode::KEY_F8 => 66,
        KeyCode::KEY_F9 => 67,
        KeyCode::KEY_F10 => 68,
        KeyCode::KEY_NUMLOCK => 69,
        KeyCode::KEY_SCROLLLOCK => 70,
        KeyCode::KEY_KP7 => 71,
        KeyCode::KEY_KP8 => 72,
        KeyCode::KEY_KP9 => 73,
        KeyCode::KEY_KPMINUS => 74,
        KeyCode::KEY_KP4 => 75,
        KeyCode::KEY_KP5 => 76,
        KeyCode::KEY_KP6 => 77,
        KeyCode::KEY_KPPLUS => 78,
        KeyCode::KEY_KP1 => 79,
        KeyCode::KEY_KP2 => 80,
        KeyCode::KEY_KP3 => 81,
        KeyCode::KEY_KP0 => 82,
        KeyCode::KEY_KPDOT => 83,
        KeyCode::KEY_ZENKAKUHANKAKU => 85,
        KeyCode::KEY_102ND => 86,
        KeyCode::KEY_F11 => 87,
        KeyCode::KEY_F12 => 88,
        KeyCode::KEY_RO => 89,
        KeyCode::KEY_KATAKANA => 90,
        KeyCode::KEY_HIRAGANA => 91,
        KeyCode::KEY_HENKAN => 92,
        KeyCode::KEY_KATAKANAHIRAGANA => 93,
        KeyCode::KEY_MUHENKAN => 94,
        KeyCode::KEY_KPJPCOMMA => 95,
        KeyCode::KEY_KPENTER => 96,
        KeyCode::KEY_RIGHTCTRL => 97,
        KeyCode::KEY_KPSLASH => 98,
        KeyCode::KEY_SYSRQ => 99,
        KeyCode::KEY_RIGHTALT => 100,
        KeyCode::KEY_LINEFEED => 101,
        KeyCode::KEY_HOME => 102,
        KeyCode::KEY_UP => 103,
        KeyCode::KEY_PAGEUP => 104,
        KeyCode::KEY_LEFT => 105,
        KeyCode::KEY_RIGHT => 106,
        KeyCode::KEY_END => 107,
        KeyCode::KEY_DOWN => 108,
        KeyCode::KEY_PAGEDOWN => 109,
        KeyCode::KEY_INSERT => 110,
        KeyCode::KEY_DELETE => 111,
        KeyCode::KEY_MACRO => 112,
        KeyCode::KEY_MUTE => 113,
        KeyCode::KEY_VOLUMEDOWN => 114,
        KeyCode::KEY_VOLUMEUP => 115,
        KeyCode::KEY_POWER => 116,
        KeyCode::KEY_KPEQUAL => 117,
        KeyCode::KEY_KPPLUSMINUS => 118,
        KeyCode::KEY_PAUSE => 119,
        KeyCode::KEY_SCALE => 120,
        KeyCode::KEY_KPCOMMA => 121,
        KeyCode::KEY_HANGEUL => 122,
        KeyCode::KEY_HANJA => 123,
        KeyCode::KEY_YEN => 124,
        KeyCode::KEY_LEFTMETA => 125,
        KeyCode::KEY_RIGHTMETA => 126,
        KeyCode::KEY_COMPOSE => 127,
    }
}

/// The key a raw code stands for, if the table has an entry for it.
pub open spec fn key_code_for(code: u16) -> Option<KeyCode> {
    match code {
        1 => Some(KeyCode::KEY_ESC),
        2 => Some(KeyCode::KEY_1),
        3 => Some(KeyCode::KEY_2),
        4 => Some(KeyCode::KEY_3),
        5 => Some(KeyCode::KEY_4),
        6 => Some(KeyCode::KEY_5),
        7 => Some(KeyCode::KEY_6),
        8 => Some(KeyCode::KEY_7),
        9 => Some(KeyCode::KEY_8),
        10 => Some(KeyCode::KEY_9),
        11 => Some(KeyCode::KEY_0),
        12 => Some(KeyCode::KEY_MINUS),
        13 => Some(KeyCode::KEY_EQUAL),
        14 => Some(KeyCode::KEY_BACKSPACE),
        15 => Some(KeyCode::KEY_TAB),
        16 => Some(KeyCode::KEY_Q),
        17 => Some(KeyCode::KEY_W),
        18 => Some(KeyCode::KEY_E),
        19 => Some(KeyCode::KEY_R),
        20 => Some(KeyCode::KEY_T),
        21 => Some(KeyCode::KEY_Y),
        22 => Some(KeyCode::KEY_U),
        23 => Some(KeyCode::KEY_I),
        24 => Some(KeyCode::KEY_O),
        25 => Some(KeyCode::KEY_P),
        26 => Some(KeyCode::KEY_LEFTBRACE),
        27 => Some(KeyCode::KEY_RIGHTBRACE),
        28 => Some(KeyCode::KEY_ENTER),
        29 => Some(KeyCode::KEY_LEFTCTRL),
        30 => Some(KeyCode::KEY_A),
        31 => Some(KeyCode::KEY_S),
        32 => Some(KeyCode::KEY_D),
        33 => Some(KeyCode::KEY_F),
        34 => Some(KeyCode::KEY_G),
        35 => Some(KeyCode::KEY_H),
        36 => Some(KeyCode::KEY_J),
        37 => Some(KeyCode::KEY_K),
        38 => Some(KeyCode::KEY_L),
        39 => Some(KeyCode::KEY_SEMICOLON),
        40 => Some(KeyCode::KEY_APOSTROPHE),
        41 => Some(KeyCode::KEY_GRAVE),
        42 => Some(KeyCode::KEY_LEFTSHIFT),
        43 => Some(KeyCode::KEY_BACKSLASH),
        44 => Some(KeyCode::KEY_Z),
        45 => Some(KeyCode::KEY_X),
        46 => Some(KeyCode::KEY_C),
        47 => Some(KeyCode::KEY_V),
        48 => Some(KeyCode::KEY_B),
        49 => Some(KeyCode::KEY_N),
        50 => Some(KeyCode::KEY_M),
        51 => Some(KeyCode::KEY_COMMA),
        52 => Some(KeyCode::KEY_DOT),
        53 => Some(KeyCode::KEY_SLASH),
        54 => Some(KeyCode::KEY_RIGHTSHIFT),
        55 => Some(KeyCode::KEY_KPASTERISK),
        56 => Some(KeyCode::KEY_LEFTALT),
        57 => Some(KeyCode::KEY_SPACE),
        58 => Some(KeyCode::KEY_CAPSLOCK),
        59 => Some(KeyCode::KEY_F1),
        60 => Some(KeyCode::KEY_F2),
        61 => Some(KeyCode::KEY_F3),
        62 => Some(KeyCode::KEY_F4),
        63 => Some(KeyCode::KEY_F5),
        64 => Some(KeyCode::KEY_F6),
        65 => Some(KeyCode::KEY_F7),
        66 => Some(KeyCode::KEY_F8),
        67 => Some(KeyCode::KEY_F9),
        68 => Some(KeyCode::KEY_F10),
        69 => Some(KeyCode::KEY_NUMLOCK),
        70 => Some(KeyCode::KEY_SCROLLLOCK),
        71 => Some(KeyCode::KEY_KP7),
        72 => Some(KeyCode::KEY_KP8),
        73 => Some(KeyCode::KEY_KP9),
        74 => Some(KeyCode::KEY_KPMINUS),
        75 => Some(KeyCode::KEY_KP4),
        76 => Some(KeyCode::KEY_KP5),
        77 => Some(KeyCode::KEY_KP6),
        78 => Some(KeyCode::KEY_KPPLUS),
        79 => Some(KeyCode::KEY_KP1),
        80 => Some(KeyCode::KEY_KP2),
        81 => Some(KeyCode::KEY_KP3),
        82 => Some(KeyCode::KEY_KP0),
        83 => Some(KeyCode::KEY_KPDOT),
        85 => Some(KeyCode::KEY_ZENKAKUHANKAKU),
        86 => Some(KeyCode::KEY_102ND),
        87 => Some(KeyCode::KEY_F11),
        88 => Some(KeyCode::KEY_F12),
        89 => Some(KeyCode::KEY_RO),
        90 => Some(KeyCode::KEY_KATAKANA),
        91 => Some(KeyCode::KEY_HIRAGANA),
        92 => Some(KeyCode::KEY_HENKAN),
        93 => Some(KeyCode::KEY_KATAKANAHIRAGANA),
        94 => Some(KeyCode::KEY_MUHENKAN),
        95 => Some(KeyCode::KEY_KPJPCOMMA),
        96 => Some(KeyCode::KEY_KPENTER),
        97 => Some(KeyCode::KEY_RIGHTCTRL),
        98 => Some(KeyCode::KEY_KPSLASH),
        99 => Some(KeyCode::KEY_SYSRQ),
        100 => Some(KeyCode::KEY_RIGHTALT),
        101 => Some(KeyCode::KEY_LINEFEED),
        102 => Some(KeyCode::KEY_HOME),
        103 => Some(KeyCode::KEY_UP),
        104 => Some(KeyCode::KEY_PAGEUP),
        105 => Some(KeyCode::KEY_LEFT),
        106 => Some(KeyCode::KEY_RIGHT),
        107 => Some(KeyCode::KEY_END),
        108 => Some(KeyCode::KEY_DOWN),
        109 => Some(KeyCode::KEY_PAGEDOWN),
        110 => Some(KeyCode::KEY_INSERT),
        111 => Some(KeyCode::KEY_DELETE),
        112 => Some(KeyCode::KEY_MACRO),
        113 => Some(KeyCode::KEY_MUTE),
        114 => Some(KeyCode::KEY_VOLUMEDOWN),
        115 => Some(KeyCode::KEY_VOLUMEUP),
        116 => Some(KeyCode::KEY_POWER),
        117 => Some(KeyCode::KEY_KPEQUAL),
        118 => Some(KeyCode::KEY_KPPLUSMINUS),
        119 => Some(KeyCode::KEY_PAUSE),
        120 => Some(KeyCode::KEY_SCALE),
        121 => Some(KeyCode::KEY_KPCOMMA),
        122 => Some(KeyCode::KEY_HANGEUL),
        123 => Some(KeyCode::KEY_HANJA),
        124 => Some(KeyCode::KEY_YEN),
        125 => Some(KeyCode::KEY_LEFTMETA),
        126 => Some(KeyCode::KEY_RIGHTMETA),
        127 => Some(KeyCode::KEY_COMPOSE),
        _ => None,
    }
}

/// Whether a raw code has an entry in the key-code table: the standard
/// keyboard range, which leaves one code unassigned.
pub open spec fn key_code_in_table(code: u16) -> bool {
    1 <= code <= 127 && code != 84
}

/// The table covers exactly the codes of the standard keyboard range, and
/// every entry maps back to the code it was found under.
pub proof fn lemma_key_code_table_exact(code: u16)
    ensures
        key_code_for(code) is Some <==> key_code_in_table(code),
        key_code_for(code) matches Some(k) ==> key_code_value(k) == code,
{
}

/// Every key of the table round-trips: looking its own code up in the
/// table finds it again, so distinct keys never share a code.
pub proof fn lemma_key_code_round_trip(k: KeyCode)
    ensures
        key_code_for(key_code_value(k)) == Some(k),
{
}

impl KeyCode {
    /// The kernel code of this key.
    pub fn code(&self) -> (r: u16)
        ensures
            r == key_code_value(*self),
    {
        match self {
            KeyCode::KEY_ESC => 1,
            KeyCode::KEY_1 => 2,
            KeyCode::KEY_2 => 3,
            KeyCode::KEY_3 => 4,
            KeyCode::KEY_4 => 5,
            KeyCode::KEY_5 => 6,
            KeyCode::KEY_6 => 7,
            KeyCode::KEY_7 => 8,
            KeyCode::KEY_8 => 9,
            KeyCode::KEY_9 => 10,
            KeyCode::KEY_0 => 11,
            KeyCode::KEY_MINUS => 12,
            KeyCode::KEY_EQUAL => 13,
            KeyCode::KEY_BACKSPACE => 14,
            KeyCode::KEY_TAB => 15,
            KeyCode::KEY_Q => 16,
            KeyCode::KEY_W => 17,
            KeyCode::KEY_E => 18,
            KeyCode::KEY_R => 19,
            KeyCode::KEY_T => 20,
            KeyCode::KEY_Y => 21,
            KeyCode::KEY_U => 22,
            KeyCode::KEY_I => 23,
            KeyCode::KEY_O => 24,
            KeyCode::KEY_P => 25,
            KeyCode::KEY_LEFTBRACE => 26,
            KeyCode::KEY_RIGHTBRACE => 27,
            KeyCode::KEY_ENTER => 28,
            KeyCode::KEY_LEFTCTRL => 29,
            KeyCode::KEY_A => 30,
            KeyCode::KEY_S => 31,
            KeyCode::KEY_D => 32,
            KeyCode::KEY_F => 33,
            KeyCode::KEY_G => 34,
            KeyCode::KEY_H => 35,
            KeyCode::KEY_J => 36,
            KeyCode::KEY_K => 37,
            KeyCode::KEY_L => 38,
            KeyCode::KEY_SEMICOLON => 39,
            KeyCode::KEY_APOSTROPHE => 40,
            KeyCode::KEY_GRAVE => 41,
            KeyCode::KEY_LEFTSHIFT => 42,
            KeyCode::KEY_BACKSLASH => 43,
            KeyCode::KEY_Z => 44,
            KeyCode::KEY_X => 45,
            KeyCode::KEY_C => 46,
            KeyCode::KEY_V => 47,
            KeyCode::KEY_B => 48,
            KeyCode::KEY_N => 49,
            KeyCode::KEY_M => 50,
            KeyCode::KEY_COMMA => 51,
            KeyCode::KEY_DOT => 52,
            KeyCode::KEY_SLASH => 53,
            KeyCode::KEY_RIGHTSHIFT => 54,
            KeyCode::KEY_KPASTERISK => 55,
            KeyCode::KEY_LEFTALT => 56,
            KeyCode::KEY_SPACE => 57,
            KeyCode::KEY_CAPSLOCK => 58,
            KeyCode::KEY_F1 => 59,
            KeyCode::KEY_F2 => 60,
            KeyCode::KEY_F3 => 61,
            KeyCode::KEY_F4 => 62,
            KeyCode::KEY_F5 => 63,
            KeyCode::KEY_F6 => 64,
            KeyCode::KEY_F7 => 65,
            KeyCode::KEY_F8 => 66,
            KeyCode::KEY_F9 => 67,
            KeyCode::KEY_F10 => 68,
            KeyCode::KEY_NUMLOCK => 69,
            KeyCode::KEY_SCROLLLOCK => 70,
            KeyCode::KEY_KP7 => 71,
            KeyCode::KEY_KP8 => 72,
            KeyCode::KEY_KP9 => 73,
            KeyCode::KEY_KPMINUS => 74,
            KeyCode::KEY_KP4 => 75,
            KeyCode::KEY_KP5 => 76,
            KeyCode::KEY_KP6 => 77,
            KeyCode::KEY_KPPLUS => 78,
            KeyCode::KEY_KP1 => 79,
            KeyCode::KEY_KP2 => 80,
            KeyCode::KEY_KP3 => 81,
            KeyCode::KEY_KP0 => 82,
            KeyCode::KEY_KPDOT => 83,
            KeyCode::KEY_ZENKAKUHANKAKU => 85,
            KeyCode::KEY_102ND => 86,
            KeyCode::KEY_F11 => 87,
            KeyCode::KEY_F12 => 88,
            KeyCode::KEY_RO => 89,
            KeyCode::KEY_KATAKANA => 90,
            KeyCode::KEY_HIRAGANA => 91,
            KeyCode::KEY_HENKAN => 92,
            KeyCode::KEY_KATAKANAHIRAGANA => 93,
            KeyCode::KEY_MUHENKAN => 94,
            KeyCode::KEY_KPJPCOMMA => 95,
            KeyCode::KEY_KPENTER => 96,
            KeyCode::KEY_RIGHTCTRL => 97,
            KeyCode::KEY_KPSLASH => 98,
            KeyCode::KEY_SYSRQ => 99,
            KeyCode::KEY_RIGHTALT => 100,
            KeyCode::KEY_LINEFEED => 101,
            KeyCode::KEY_HOME => 102,
            KeyCode::KEY_UP => 103,
            KeyCode::KEY_PAGEUP => 104,
            KeyCode::KEY_LEFT => 105,
            KeyCode::KEY_RIGHT => 106,
            KeyCode::KEY_END => 107,
            KeyCode::KEY_DOWN => 108,
            KeyCode::KEY_PAGEDOWN => 109,
            KeyCode::KEY_INSERT => 110,
            KeyCode::KEY_DELETE => 111,
            KeyCode::KEY_MACRO => 112,
            KeyCode::KEY_MUTE => 113,
            KeyCode::KEY_VOLUMEDOWN => 114,
            KeyCode::KEY_VOLUMEUP => 115,
            KeyCode::KEY_POWER => 116,
            KeyCode::KEY_KPEQUAL => 117,
            KeyCode::KEY_KPPLUSMINUS => 118,
            KeyCode::KEY_PAUSE => 119,
            KeyCode::KEY_SCALE => 120,
            KeyCode::KEY_KPCOMMA => 121,
            KeyCode::KEY_HANGEUL => 122,
            KeyCode::KEY_HANJA => 123,
            KeyCode::KEY_YEN => 124,
            KeyCode::KEY_LEFTMETA => 125,
            KeyCode::KEY_RIGHTMETA => 126,
            KeyCode::KEY_COMPOSE => 127,
        }
    }

    /// Map a raw code to its key. Exactly the codes in the table succeed;
    /// any other code is rejected as an invalid key code.
    pub fn try_from_code(code: u16) -> (r: Result<KeyCode, KeyloggerError>)
        ensures
            r == (match key_code_for(code) {
                Some(k) => Ok::<KeyCode, KeyloggerError>(k),
                None => Err::<KeyCode, KeyloggerError>(KeyloggerError::InvalidKeyCode(code)),
            }),
            r is Ok <==> key_code_in_table(code),
    {
        match code {
            1 => Ok(KeyCode::KEY_ESC),
            2 => Ok(KeyCode::KEY_1),
            3 => Ok(KeyCode::KEY_2),
            4 => Ok(KeyCode::KEY_3),
            5 => Ok(KeyCode::KEY_4),
            6 => Ok(KeyCode::KEY_5),
            7 => Ok(KeyCode::KEY_6),
            8 => Ok(KeyCode::KEY_7),
            9 => Ok(KeyCode::KEY_8),
            10 => Ok(KeyCode::KEY_9),
            11 => Ok(KeyCode::KEY_0),
            12 => Ok(KeyCode::KEY_MINUS),
            13 => Ok(KeyCode::KEY_EQUAL),
            14 => Ok(KeyCode::KEY_BACKSPACE),
            15 => Ok(KeyCode::KEY_TAB),
            16 => Ok(KeyCode::KEY_Q),
            17 => Ok(KeyCode::KEY_W),
            18 => Ok(KeyCode::KEY_E),
            19 => Ok(KeyCode::KEY_R),
            20 => Ok(KeyCode::KEY_T),
            21 => Ok(KeyCode::KEY_Y),
            22 => Ok(KeyCode::KEY_U),
            23 => Ok(KeyCode::KEY_I),
            24 => Ok(KeyCode::KEY_O),
            25 => Ok(KeyCode::KEY_P),
            26 => Ok(KeyCode::KEY_LEFTBRACE),
            27 => Ok(KeyCode::KEY_RIGHTBRACE),
            28 => Ok(KeyCode::KEY_ENTER),
            29 => Ok(KeyCode::KEY_LEFTCTRL),
            30 => Ok(KeyCode::KEY_A),
            31 => Ok(KeyCode::KEY_S),
            32 => Ok(KeyCode::KEY_D),
            33 => Ok(KeyCode::KEY_F),
            34 => Ok(KeyCode::KEY_G),
            35 => Ok(KeyCode::KEY_H),
            36 => Ok(KeyCode::KEY_J),
            37 => Ok(KeyCode::KEY_K),
            38 => Ok(KeyCode::KEY_L),
            39 => Ok(KeyCode::KEY_SEMICOLON),
            40 => Ok(KeyCode::KEY_APOSTROPHE),
            41 => Ok(KeyCode::KEY_GRAVE),
            42 => Ok(KeyCode::KEY_LEFTSHIFT),
            43 => Ok(KeyCode::KEY_BACKSLASH),
            44 => Ok(KeyCode::KEY_Z),
            45 => Ok(KeyCode::KEY_X),
            46 => Ok(KeyCode::KEY_C),
            47 => Ok(KeyCode::KEY_V),
            48 => Ok(KeyCode::KEY_B),
            49 => Ok(KeyCode::KEY_N),
            50 => Ok(KeyCode::KEY_M),
            51 => Ok(KeyCode::KEY_COMMA),
            52 => Ok(KeyCode::KEY_DOT),
            53 => Ok(KeyCode::KEY_SLASH),
            54 => Ok(KeyCode::KEY_RIGHTSHIFT),
            55 => Ok(KeyCode::KEY_KPASTERISK),
            56 => Ok(KeyCode::KEY_LEFTALT),
            57 => Ok(KeyCode::KEY_SPACE),
            58 => Ok(KeyCode::KEY_CAPSLOCK),
            59 => Ok(KeyCode::KEY_F1),
            60 => Ok(KeyCode::KEY_F2),
            61 => Ok(KeyCode::KEY_F3),
            62 => Ok(KeyCode::KEY_F4),
            63 => Ok(KeyCode::KEY_F5),
            64 => Ok(KeyCode::KEY_F6),
            65 => Ok(KeyCode::KEY_F7),
            66 => Ok(KeyCode::KEY_F8),
            67 => Ok(KeyCode::KEY_F9),
            68 => Ok(KeyCode::KEY_F10),
            69 => Ok(KeyCode::KEY_NUMLOCK),
            70 => Ok(KeyCode::KEY_SCROLLLOCK),
            71 => Ok(KeyCode::KEY_KP7),
            72 => Ok(KeyCode::KEY_KP8),
            73 => Ok(KeyCode::KEY_KP9),
            74 => Ok(KeyCode::KEY_KPMINUS),
            75 => Ok(KeyCode::KEY_KP4),
            76 => Ok(KeyCode::KEY_KP5),
            77 => Ok(KeyCode::KEY_KP6),
            78 => Ok(KeyCode::KEY_KPPLUS),
            79 => Ok(KeyCode::KEY_KP1),
            80 => Ok(KeyCode::KEY_KP2),
            81 => Ok(KeyCode::KEY_KP3),
            82 => Ok(KeyCode::KEY_KP0),
            83 => Ok(KeyCode::KEY_KPDOT),
            85 => Ok(KeyCode::KEY_ZENKAKUHANKAKU),
            86 => Ok(KeyCode::KEY_102ND),
            87 => Ok(KeyCode::KEY_F11),
            88 => Ok(KeyCode::KEY_F12),
            89 => Ok(KeyCode::KEY_RO),
            90 => Ok(KeyCode::KEY_KATAKANA),
            91 => Ok(KeyCode::KEY_HIRAGANA),
            92 => Ok(KeyCode::KEY_HENKAN),
            93 => Ok(KeyCode::KEY_KATAKANAHIRAGANA),
            94 => Ok(KeyCode::KEY_MUHENKAN),
            95 => Ok(KeyCode::KEY_KPJPCOMMA),
            96 => Ok(KeyCode::KEY_KPENTER),
            97 => Ok(KeyCode::KEY_RIGHTCTRL),
            98 => Ok(KeyCode::KEY_KPSLASH),
            99 => Ok(KeyCode::KEY_SYSRQ),
            100 => Ok(KeyCode::KEY_RIGHTALT),
            101 => Ok(KeyCode::KEY_LINEFEED),
            102 => Ok(KeyCode::KEY_HOME),
            103 => Ok(KeyCode::KEY_UP),
            104 => Ok(KeyCode::KEY_PAGEUP),
            105 => Ok(KeyCode::KEY_LEFT),
            106 => Ok(KeyCode::KEY_RIGHT),
            107 => Ok(KeyCode::KEY_END),
            108 => Ok(KeyCode::KEY_DOWN),
            109 => Ok(KeyCode::KEY_PAGEDOWN),
            110 => Ok(KeyCode::KEY_INSERT),
            111 => Ok(KeyCode::KEY_DELETE),
            112 => Ok(KeyCode::KEY_MACRO),
            113 => Ok(KeyCode::KEY_MUTE),
            114 => Ok(KeyCode::KEY_VOLUMEDOWN),
            115 => Ok(KeyCode::KEY_VOLUMEUP),
            116 => Ok(KeyCode::KEY_POWER),
            117 => Ok(KeyCode::KEY_KPEQUAL),
            118 => Ok(KeyCode::KEY_KPPLUSMINUS),
            119 => Ok(KeyCode::KEY_PAUSE),
            120 => Ok(KeyCode::KEY_SCALE),
            121 => Ok(KeyCode::KEY_KPCOMMA),
            122 => Ok(KeyCode::KEY_HANGEUL),
            123 => Ok(KeyCode::KEY_HANJA),
            124 => Ok(KeyCode::KEY_YEN),
            125 => Ok(KeyCode::KEY_LEFTMETA),
            126 => Ok(KeyCode::KEY_RIGHTMETA),
            127 => Ok(KeyCode::KEY_COMPOSE),
            _ => Err(KeyloggerError::InvalidKeyCode(code)),
        }
    }
}

} // verus!
