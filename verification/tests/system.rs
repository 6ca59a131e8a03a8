use vgaterm::multiboot::Header;
use vgaterm::mutex::Mutex;
use vgaterm::terminal::VgaBuffer;

#[test]
fn get_char_decodes_through_the_terminal() {
    let mut t = VgaBuffer::new();
    assert_eq!(t.get_char(0x1E), Some('a'));
    assert_eq!(t.get_char(0x2A), None);
    assert_eq!(t.get_char(0x1E), Some('A'));
    assert_eq!(t.get_char(0xAA), None);
    assert_eq!(t.get_char(0x1E), Some('a'));
}

#[test]
fn get_line_collects_until_enter() {
    let mut t = VgaBuffer::new();
    assert_eq!(t.get_line(0x23), None); // h
    assert_eq!(t.get_line(0x17), None); // i
    assert_eq!(t.line_len(), 2);
    let line = t.get_line(0x1C); // enter
    assert_eq!(line, Some(b"hi".to_vec()));
    assert_eq!(t.line_len(), 0);
    // the next line starts fresh
    assert_eq!(t.get_line(0x18), None); // o
    assert_eq!(t.get_line(0x25), None); // k
    assert_eq!(t.get_line(0x1C), Some(b"ok".to_vec()));
}

#[test]
fn get_line_backspace_removes_the_last_byte() {
    let mut t = VgaBuffer::new();
    assert_eq!(t.get_line(0x1E), None); // a
    assert_eq!(t.get_line(0x30), None); // b
    assert_eq!(t.get_line(0x0E), None); // backspace
    assert_eq!(t.get_line(0x1C), Some(b"a".to_vec()));
    // backspace on an empty line is harmless
    let mut t2 = VgaBuffer::new();
    assert_eq!(t2.get_line(0x0E), None);
    assert_eq!(t2.get_line(0x1C), Some(b"".to_vec()));
}

#[test]
fn get_line_control_backspace_erases_a_word() {
    let mut t = VgaBuffer::new();
    for &s in &[0x1Eu8, 0x30, 0x39, 0x2E, 0x20, 0x39] {
        assert_eq!(t.get_line(s), None); // a b space c d space
    }
    assert_eq!(t.line_len(), 6);
    assert_eq!(t.get_line(0x1D), None); // control down
    assert_eq!(t.get_line(0x0E), None); // word erase
    assert_eq!(t.get_line(0x9D), None); // control up
    assert_eq!(t.get_line(0x1C), Some(b"ab ".to_vec()));
    // erasing across the remaining word empties the line
    for &s in &[0x1Eu8, 0x30] {
        assert_eq!(t.get_line(s), None);
    }
    assert_eq!(t.get_line(0x1D), None);
    assert_eq!(t.get_line(0x0E), None);
    assert_eq!(t.get_line(0x0E), None);
    assert_eq!(t.get_line(0x9D), None);
    assert_eq!(t.get_line(0x1C), Some(b"".to_vec()));
}

#[test]
fn get_line_drops_input_beyond_capacity() {
    let mut t = VgaBuffer::new();
    for _ in 0..130 {
        assert_eq!(t.get_line(0x1E), None); // a
    }
    assert_eq!(t.line_len(), 128);
    let line = t.get_line(0x1C).unwrap();
    assert_eq!(line.len(), 128);
    assert!(line.iter().all(|&b| b == b'a'));
}

#[test]
fn get_line_ignores_modifier_only_scancodes() {
    let mut t = VgaBuffer::new();
    assert_eq!(t.get_line(0x2A), None); // shift down
    assert_eq!(t.line_len(), 0);
    assert_eq!(t.get_line(0x1E), None); // A
    assert_eq!(t.get_line(0xAA), None); // shift up
    assert_eq!(t.get_line(0x1C), Some(b"A".to_vec()));
}

#[test]
fn second_acquisition_while_a_guard_is_alive_fails() {
    let mut m = Mutex::new(7u32);
    assert!(!m.locked());
    let guard = m.lock();
    assert!(m.locked());
    assert_eq!(guard.value, 7);
    // the lock is held: a second acquisition yields nothing
    assert!(m.try_lock().is_none());
    assert!(m.try_lock().is_none());
    m.unlock(guard);
    assert!(!m.locked());
}

#[test]
fn the_guard_carries_changes_back() {
    let mut m = Mutex::new(7u32);
    let mut guard = m.lock();
    guard.value = 9;
    m.unlock(guard);
    let guard = m.try_lock().expect("the lock is free again");
    assert_eq!(guard.value, 9);
    assert!(m.locked());
    m.unlock(guard);
}

#[test]
fn multiboot_header_sums_to_zero() {
    let h = Header::new();
    assert_eq!(h.magic, 0x1BADB002);
    assert_eq!(h.flags, 1);
    assert_eq!(h.magic.wrapping_add(h.flags).wrapping_add(h.checksum), 0);
}
