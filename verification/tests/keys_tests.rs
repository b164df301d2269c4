use term_session::keys::{ctrl_key, decode_key, KeyAction, CONTROL_MASK, QUIT_LETTER};

#[test]
fn ctrl_key_of_q_is_0x11() {
    assert_eq!(ctrl_key(b'q'), 0x11);
    assert_eq!(ctrl_key(QUIT_LETTER), 0x11);
    assert_eq!(CONTROL_MASK, 0x1f);
}

#[test]
fn ctrl_key_of_every_letter_is_its_position() {
    for (i, letter) in (b'a'..=b'z').enumerate() {
        assert_eq!(ctrl_key(letter), letter & 0x1f);
        assert_eq!(ctrl_key(letter) as usize, i + 1);
    }
    for (i, letter) in (b'A'..=b'Z').enumerate() {
        assert_eq!(ctrl_key(letter), letter & 0x1f);
        assert_eq!(ctrl_key(letter) as usize, i + 1);
    }
}

#[test]
fn ctrl_key_clears_the_upper_three_bits() {
    assert_eq!(ctrl_key(0xff), 0x1f);
    assert_eq!(ctrl_key(0x00), 0x00);
    assert_eq!(ctrl_key(0xe0), 0x00);
    assert_eq!(ctrl_key(b'['), 0x1b);
    for byte in 0..=255u8 {
        assert!(ctrl_key(byte) < 0x20);
    }
}

#[test]
fn only_ctrl_q_quits() {
    for byte in 0..=255u8 {
        let expected = if byte == 0x11 { KeyAction::Quit } else { KeyAction::Ignore };
        assert_eq!(decode_key(byte), expected);
    }
    assert_eq!(decode_key(b'q'), KeyAction::Ignore);
    assert_eq!(decode_key(b'A'), KeyAction::Ignore);
}
