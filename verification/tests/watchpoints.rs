use chip8_core::keyboard::Keyboard;
use chip8_core::watchpoints::{Watchpoint, Watchpoints};

#[test]
fn empty_watchpoints_never_hit() {
    let mut w = Watchpoints::new();
    assert!(!w.check_mem_access(vec![(0x200, true), (0x300, false)]));
}

#[test]
fn watchpoint_range_and_kind() {
    let mut w = Watchpoints::new();
    w.watchpoints.push(Watchpoint { addr_start: 0x300, addr_end: 0x30f, read: true, write: false });
    assert!(w.check(0x300, true));
    assert!(w.check(0x30f, true));
    assert!(!w.check(0x310, true));
    assert!(!w.check(0x2ff, true));
    assert!(!w.check(0x300, false)); // armed for reads only
}

#[test]
fn write_watchpoint() {
    let mut w = Watchpoints::new();
    w.watchpoints.push(Watchpoint { addr_start: 0x300, addr_end: 0x300, read: false, write: true });
    assert!(!w.check_mem_access(vec![(0x300, true)]));
    assert!(w.check_mem_access(vec![(0x2ff, true), (0x300, false)]));
}

#[test]
fn keyboard_starts_released() {
    let mut k = Keyboard::new();
    assert_eq!(k.keys_held.len(), 16);
    assert!(k.keys_held.iter().all(|&h| !h));
    k.set_key_held(5, true);
    assert!(k.keys_held[5]);
    assert!(!k.keys_held[4]);
    k.set_key_held(5, false);
    assert!(!k.keys_held[5]);
}
