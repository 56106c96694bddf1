use keylogger::{KeyCode, KeyloggerError};

#[test]
fn maps_common_codes() {
    assert_eq!(KeyCode::try_from_code(1), Ok(KeyCode::KEY_ESC));
    assert_eq!(KeyCode::try_from_code(2), Ok(KeyCode::KEY_1));
    assert_eq!(KeyCode::try_from_code(30), Ok(KeyCode::KEY_A));
    assert_eq!(KeyCode::try_from_code(44), Ok(KeyCode::KEY_Z));
    assert_eq!(KeyCode::try_from_code(48), Ok(KeyCode::KEY_B));
    assert_eq!(KeyCode::try_from_code(57), Ok(KeyCode::KEY_SPACE));
    assert_eq!(KeyCode::try_from_code(127), Ok(KeyCode::KEY_COMPOSE));
}

#[test]
fn rejects_codes_outside_table() {
    assert_eq!(KeyCode::try_from_code(0), Err(KeyloggerError::InvalidKeyCode(0)));
    assert_eq!(KeyCode::try_from_code(84), Err(KeyloggerError::InvalidKeyCode(84)));
    assert_eq!(KeyCode::try_from_code(128), Err(KeyloggerError::InvalidKeyCode(128)));
    assert_eq!(
        KeyCode::try_from_code(u16::MAX),
        Err(KeyloggerError::InvalidKeyCode(u16::MAX))
    );
}

#[test]
fn every_table_entry_round_trips() {
    for code in 1u16..=127 {
        if code == 84 {
            assert!(KeyCode::try_from_code(code).is_err());
        } else {
            let key = KeyCode::try_from_code(code).unwrap();
            assert_eq!(key.code(), code);
        }
    }
}
