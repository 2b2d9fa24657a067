use anne_key::keystate::{KeyState, KEY_COUNT, STATE_BYTES};

#[test]
fn packing_positions() {
    // Bit k of byte k / 8, least-significant bit first.
    let mut s = KeyState::new();
    s.set(0, true);
    assert_eq!(s.bytes, vec![1, 0, 0, 0, 0, 0, 0, 0, 0]);
    s.set(7, true);
    assert_eq!(s.bytes[0], 0x81);
    s.set(0, false);
    assert_eq!(s.bytes[0], 0x80);
    s.set(29, true);
    assert_eq!(s.bytes[3], 0x20);
    s.set(69, true);
    assert_eq!(s.bytes[8], 0x20);
    assert!(s.get(7));
    assert!(s.get(29));
    assert!(s.get(69));
    assert!(!s.get(0));
}

#[test]
fn unused_top_bits_stay_zero() {
    let mut s = KeyState::new();
    for k in 0..KEY_COUNT {
        s.set(k, true);
    }
    assert_eq!(s.bytes.len(), STATE_BYTES);
    // all 70 key bits set, the two spare bits clear
    assert_eq!(s.bytes[8], 0x3f);
    for b in 0..8 {
        assert_eq!(s.bytes[b], 0xff);
    }
}

#[test]
fn wire_round_trip() {
    // The packed state is the LED wire payload, byte for byte.
    let mut s = KeyState::new();
    s.set(3, true);
    s.set(42, true);
    s.set(68, true);
    let wire = s.to_bytes();
    assert_eq!(wire, s.bytes);
    let back = KeyState::from_bytes(wire);
    assert!(back.same_as(&s));
    assert_eq!(back.to_bytes(), s.to_bytes());
}

#[test]
fn same_as_differs_on_any_bit() {
    let mut a = KeyState::new();
    let b = KeyState::new();
    assert!(a.same_as(&b));
    a.set(69, true);
    assert!(!a.same_as(&b));
    a.set(69, false);
    assert!(a.same_as(&b));
}
