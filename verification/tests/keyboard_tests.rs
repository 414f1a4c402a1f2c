use kfs_core::keyboard::{
    is_break, poll_once, translate_printable, KeyCode, KeyEvent, Keymap, Modifiers, State,
};

/// A keymap with the handful of entries these tests rely on: 0x1E maps to
/// 'a' / 'A' as on the US layout, everything else is unmapped (zero).
fn test_keymap() -> Keymap {
    let mut plain = vec![0u8; 256];
    let mut shifted = vec![0u8; 256];
    plain[0x1E] = b'a';
    shifted[0x1E] = b'A';
    plain[0x02] = b'1';
    shifted[0x02] = b'!';
    Keymap::new(plain, shifted)
}

#[test]
fn shift_make_then_letter_make_yields_uppercase() {
    let map = test_keymap();
    let mut st = State::new();

    let ev = poll_once(&mut st, Some(0x2A), &map).unwrap();
    assert_eq!(ev.code, KeyCode::Unknown(0x2A));
    assert!(ev.pressed);
    assert!(ev.mods.contains(Modifiers::SHIFT));
    assert!(st.mods.contains(Modifiers::SHIFT));

    let ev = poll_once(&mut st, Some(0x1E), &map).unwrap();
    assert_eq!(ev.code, KeyCode::Char(b'A'));
    assert!(ev.pressed);
    assert!(ev.mods.contains(Modifiers::SHIFT));
}

#[test]
fn shift_break_clears_shift_and_releases() {
    let map = test_keymap();
    let mut st = State::new();
    poll_once(&mut st, Some(0x2A), &map);
    assert!(st.mods.contains(Modifiers::SHIFT));

    let ev = poll_once(&mut st, Some(0xAA), &map).unwrap();
    assert_eq!(ev.code, KeyCode::Unknown(0xAA));
    assert!(!ev.pressed);
    assert!(!ev.mods.contains(Modifiers::SHIFT));
    assert!(!st.mods.contains(Modifiers::SHIFT));

    let ev = poll_once(&mut st, Some(0x1E), &map).unwrap();
    assert_eq!(ev.code, KeyCode::Char(b'a'));
}

#[test]
fn right_shift_codes_work_like_left() {
    let map = test_keymap();
    let mut st = State::new();
    let ev = poll_once(&mut st, Some(0x36), &map).unwrap();
    assert_eq!(ev.code, KeyCode::Unknown(0x36));
    assert!(st.mods.contains(Modifiers::SHIFT));
    poll_once(&mut st, Some(0xB6), &map);
    assert!(!st.mods.contains(Modifiers::SHIFT));
}

#[test]
fn enter_decodes_regardless_of_modifiers() {
    let map = test_keymap();
    let mut st = State::new();

    let ev = poll_once(&mut st, Some(0x1C), &map).unwrap();
    assert_eq!(ev.code, KeyCode::Enter);
    assert!(ev.pressed);

    let ev = poll_once(&mut st, Some(0x9C), &map).unwrap();
    assert_eq!(ev.code, KeyCode::Enter);
    assert!(!ev.pressed);

    poll_once(&mut st, Some(0x2A), &map);
    let ev = poll_once(&mut st, Some(0x1C), &map).unwrap();
    assert_eq!(ev.code, KeyCode::Enter);
    assert!(ev.pressed);
    assert!(ev.mods.contains(Modifiers::SHIFT));
}

#[test]
fn backspace_and_tab_are_fixed_control_codes() {
    let map = test_keymap();
    let mut st = State::new();
    assert_eq!(poll_once(&mut st, Some(0x0E), &map).unwrap().code, KeyCode::Backspace);
    assert_eq!(poll_once(&mut st, Some(0x0F), &map).unwrap().code, KeyCode::Tab);
    let ev = poll_once(&mut st, Some(0x8E), &map).unwrap();
    assert_eq!(ev.code, KeyCode::Backspace);
    assert!(!ev.pressed);
    let ev = poll_once(&mut st, Some(0x8F), &map).unwrap();
    assert_eq!(ev.code, KeyCode::Tab);
    assert!(!ev.pressed);
}

#[test]
fn unmapped_scancode_comes_back_unrecognized_with_raw_byte() {
    let map = test_keymap();
    let mut st = State::new();
    let ev = poll_once(&mut st, Some(0x30), &map).unwrap();
    assert_eq!(ev.code, KeyCode::Unknown(0x30));
    assert!(ev.pressed);
    let ev = poll_once(&mut st, Some(0xB0), &map).unwrap();
    assert_eq!(ev.code, KeyCode::Unknown(0xB0));
    assert!(!ev.pressed);
}

#[test]
fn empty_poll_leaves_state_alone() {
    let map = test_keymap();
    let mut st = State::new();
    poll_once(&mut st, Some(0x2A), &map);
    assert!(poll_once(&mut st, None, &map).is_none());
    assert!(st.mods.contains(Modifiers::SHIFT));
}

#[test]
fn translate_uses_shift_table_and_printable_threshold() {
    let map = test_keymap();
    let plain_mods = Modifiers::empty();
    let mut shifted_mods = Modifiers::empty();
    shifted_mods.insert(Modifiers::SHIFT);

    assert_eq!(translate_printable(0x02, plain_mods, &map), Some(KeyCode::Char(b'1')));
    assert_eq!(translate_printable(0x02, shifted_mods, &map), Some(KeyCode::Char(b'!')));
    // entries below the printable-ASCII threshold are rejected
    assert_eq!(translate_printable(0x03, plain_mods, &map), None);
}

#[test]
fn break_bit_detection() {
    assert!(!is_break(0x1E));
    assert!(is_break(0x9E));
    assert!(is_break(0x80));
    assert!(!is_break(0x7F));
}

#[test]
fn printable_byte_maps_presses_only() {
    let mods = Modifiers::empty();
    let press = |code| KeyEvent { code, mods, pressed: true };
    let release = |code| KeyEvent { code, mods, pressed: false };

    assert_eq!(press(KeyCode::Char(b'x')).printable_byte(), Some(b'x'));
    assert_eq!(press(KeyCode::Enter).printable_byte(), Some(b'\n'));
    assert_eq!(press(KeyCode::Backspace).printable_byte(), Some(0x08));
    assert_eq!(press(KeyCode::Tab).printable_byte(), Some(b'\t'));
    assert_eq!(press(KeyCode::Unknown(0x2A)).printable_byte(), None);
    assert_eq!(release(KeyCode::Char(b'x')).printable_byte(), None);
    assert_eq!(release(KeyCode::Enter).printable_byte(), None);
}

#[test]
fn modifier_mask_operations() {
    let mut m = Modifiers::empty();
    assert_eq!(m.bits(), 0);
    m.insert(Modifiers::SHIFT);
    m.insert(Modifiers::CTRL);
    assert!(m.contains(Modifiers::SHIFT));
    assert!(m.contains(Modifiers::CTRL));
    assert!(!m.contains(Modifiers::ALT));
    assert_eq!(m.bits(), Modifiers::SHIFT | Modifiers::CTRL);
    m.remove(Modifiers::SHIFT);
    assert!(!m.contains(Modifiers::SHIFT));
    assert!(m.contains(Modifiers::CTRL));
    m.remove(Modifiers::CAPS);
    assert_eq!(m.bits(), Modifiers::CTRL);
}
