use vgaterm::keyboard::{Modifiers, Qwerty};

#[test]
fn unshifted_letters_and_digits() {
    let mut q = Qwerty::new();
    assert_eq!(q.advance(0x1E), Some('a'));
    assert_eq!(q.advance(0x17), Some('i'));
    assert_eq!(q.advance(0x02), Some('1'));
    assert_eq!(q.advance(0x0B), Some('0'));
    assert_eq!(q.advance(0x35), Some('/'));
}

#[test]
fn shift_gives_shifted_variants() {
    let mut q = Qwerty::new();
    assert_eq!(q.advance(0x2A), None); // left shift down
    assert_eq!(q.advance(0x1E), Some('A'));
    assert_eq!(q.advance(0x02), Some('!'));
    assert_eq!(q.advance(0xAA), None); // left shift up
    assert_eq!(q.advance(0x1E), Some('a'));
    assert_eq!(q.advance(0x36), None); // right shift down
    assert_eq!(q.advance(0x27), Some(':'));
    assert_eq!(q.advance(0xB6), None); // right shift up
    assert_eq!(q.advance(0x27), Some(';'));
}

#[test]
fn caps_lock_shifts_the_whole_table() {
    let mut q = Qwerty::new();
    assert_eq!(q.advance(0x3A), None); // caps lock make
    assert_eq!(q.advance(0xBA), None); // caps lock break
    assert!(q.modifiers().caps_lock());
    assert_eq!(q.advance(0x1E), Some('A'));
    // the shift rule is shift exclusive-or caps, applied uniformly: caps
    // lock alone shifts digits and punctuation too
    assert_eq!(q.advance(0x02), Some('!'));
    // shift on top of caps lock gives the unshifted variant again
    assert_eq!(q.advance(0x2A), None);
    assert_eq!(q.advance(0x1E), Some('a'));
    assert_eq!(q.advance(0x02), Some('1'));
}

#[test]
fn keypad_needs_num_lock() {
    let mut q = Qwerty::new();
    assert_eq!(q.advance(0x47), None);
    assert_eq!(q.advance(0x53), None);
    assert_eq!(q.advance(0x45), None); // num lock make
    assert!(q.modifiers().num_lock());
    assert_eq!(q.advance(0x47), Some('7'));
    assert_eq!(q.advance(0x52), Some('0'));
    assert_eq!(q.advance(0x53), Some('.'));
    // other modifiers leave the keypad alone
    assert_eq!(q.advance(0x2A), None); // shift down
    assert_eq!(q.advance(0x47), Some('7'));
    assert_eq!(q.advance(0xAA), None); // shift up
    // keypad plus and minus positions are unmapped either way
    assert_eq!(q.advance(0x4A), None);
    assert_eq!(q.advance(0x4E), None);
    // num lock off again: nothing
    assert_eq!(q.advance(0xC5), None); // num lock break
    assert_eq!(q.advance(0x45), None); // num lock make: toggles off
    assert_eq!(q.advance(0x47), None);
}

#[test]
fn held_caps_lock_toggles_once() {
    let mut q = Qwerty::new();
    assert_eq!(q.advance(0x3A), None); // make
    assert_eq!(q.advance(0x3A), None); // repeated make while held
    assert_eq!(q.advance(0x3A), None); // repeated make while held
    assert_eq!(q.advance(0xBA), None); // break
    assert!(q.modifiers().caps_lock());
    assert!(!q.modifiers().caps_lock_pressed());
    // a fresh press toggles it back off
    assert_eq!(q.advance(0x3A), None);
    assert!(!q.modifiers().caps_lock());
}

#[test]
fn extended_prefix_alone_yields_nothing() {
    let mut q = Qwerty::new();
    assert_eq!(q.advance(0xE0), None);
    assert_eq!(q.advance(0x1C), Some('\n'));
}

#[test]
fn extended_prefix_lasts_one_byte() {
    let mut q = Qwerty::new();
    assert_eq!(q.advance(0xE0), None);
    assert_eq!(q.advance(0x35), Some('/')); // keypad slash
    // the prefix is gone again: 0x35 is now the main slash key
    assert_eq!(q.advance(0x2A), None);
    assert_eq!(q.advance(0x35), Some('?'));
    assert_eq!(q.advance(0xAA), None);
    // an extended byte with no extended meaning yields nothing
    assert_eq!(q.advance(0xE0), None);
    assert_eq!(q.advance(0x1E), None);
    assert_eq!(q.advance(0x1E), Some('a'));
}

#[test]
fn extended_control_and_alt_are_right_side() {
    let mut q = Qwerty::new();
    assert_eq!(q.advance(0xE0), None);
    assert_eq!(q.advance(0x1D), None);
    assert!(q.modifiers().right_control());
    assert!(!q.modifiers().left_control());
    assert!(q.modifiers().control());
    assert_eq!(q.advance(0xE0), None);
    assert_eq!(q.advance(0x9D), None);
    assert!(!q.modifiers().control());
    assert_eq!(q.advance(0xE0), None);
    assert_eq!(q.advance(0x38), None);
    assert!(q.modifiers().right_alt());
    assert!(q.modifiers().alt());
    assert_eq!(q.advance(0xE0), None);
    assert_eq!(q.advance(0xB8), None);
    assert!(!q.modifiers().alt());
}

#[test]
fn shift_session_decodes_upper_then_lower() {
    let mut q = Qwerty::new();
    let fed: Vec<Option<char>> =
        [0x2A, 0x17, 0xAA, 0x17].iter().map(|&s| q.advance(s)).collect();
    assert_eq!(fed, vec![None, Some('I'), None, Some('i')]);
}

#[test]
fn functional_keys_decode_unconditionally() {
    let mut q = Qwerty::new();
    assert_eq!(q.advance(0x39), Some(' '));
    assert_eq!(q.advance(0x1C), Some('\n'));
    assert_eq!(q.advance(0x0E), Some('\x08'));
    assert_eq!(q.advance(0x0F), Some('\t'));
    assert_eq!(q.advance(0x01), Some('\x1b'));
    // space decodes to space even shifted
    assert_eq!(q.advance(0x2A), None);
    assert_eq!(q.advance(0x39), Some(' '));
}

#[test]
fn break_codes_and_unknown_codes_yield_nothing() {
    let mut q = Qwerty::new();
    assert_eq!(q.advance(0x9E), None); // break of the 'a' key
    assert_eq!(q.advance(0x97), None); // break of the 'i' key
    assert_eq!(q.advance(0x5B), None); // unmapped make code
    assert_eq!(q.advance(0xFF), None);
    // the decoder is unperturbed afterwards
    assert_eq!(q.advance(0x1E), Some('a'));
}

#[test]
fn modifier_accessors_track_their_flags() {
    let mut m = Modifiers::new();
    assert!(!m.shift());
    assert!(!m.control());
    assert!(!m.alt());
    assert!(!m.super_key());
    assert!(!m.shifted());
    m.set_left_shift();
    assert!(m.left_shift());
    assert!(m.shift());
    assert!(m.shifted());
    m.toggle_caps_lock();
    assert!(m.caps_lock());
    assert!(!m.shifted()); // shift and caps cancel
    m.clear_left_shift();
    assert!(m.shifted());
    m.set_right_alt();
    m.set_left_control();
    assert!(m.alt());
    assert!(m.control());
    m.clear_right_alt();
    m.clear_left_control();
    assert!(!m.alt());
    assert!(!m.control());
    m.set_scroll_lock_pressed();
    assert!(m.scroll_lock_pressed());
    assert!(!m.scroll_lock());
    m.toggle_scroll_lock();
    assert!(m.scroll_lock());
    m.clear_scroll_lock_pressed();
    assert!(!m.scroll_lock_pressed());
    m.set_num_lock_pressed();
    assert!(m.num_lock_pressed());
    m.clear_num_lock_pressed();
    assert!(!m.num_lock_pressed());
    m.set_caps_lock_pressed();
    assert!(m.caps_lock_pressed());
    m.clear_caps_lock_pressed();
    assert!(!m.caps_lock_pressed());
    m.set_right_shift();
    assert!(m.right_shift());
    m.clear_right_shift();
    m.set_right_control();
    assert!(m.right_control());
    m.clear_right_control();
    m.set_left_alt();
    assert!(m.left_alt());
    m.clear_left_alt();
    m.set_right_alt();
    assert!(m.right_alt());
    m.clear_right_alt();
    assert!(!m.left_super() && !m.right_super());
    m.toggle_num_lock();
    assert!(m.num_lock());
    m.toggle_num_lock();
    assert!(!m.num_lock());
}
