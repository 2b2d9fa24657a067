use anne_key::action::Action;
use anne_key::bluetooth::Bluetooth;
use anne_key::keyboard::{HidProcessor, Keyboard, Layers};
use anne_key::keycodes::KeyCode;
use anne_key::keystate::KeyState;
use anne_key::led::Led;
use anne_key::serial::bluetooth_usart::BluetoothUsart;
use anne_key::serial::led_usart::LedUsart;
use anne_key::serial::{Serial, RX_BUFFER_SIZE};
use anne_key::usb::UsbHid;

fn rig() -> (Keyboard, Bluetooth, Led, UsbHid) {
    let bt_serial = Serial::new(BluetoothUsart::new(), vec![0u8; 0x80]);
    let bluetooth = Bluetooth::new(bt_serial, vec![0u8; RX_BUFFER_SIZE]);
    let led_serial = Serial::new(LedUsart::new(), vec![0u8; 0x80]);
    let led = Led::new(led_serial, vec![0u8; RX_BUFFER_SIZE]);
    (Keyboard::new(), bluetooth, led, UsbHid::new())
}

fn drain_led(led: &mut Led) {
    led.serial.usart.complete_tx();
    led.serial.tx_interrupt();
}

#[test]
fn empty_report_tick_does_nothing() {
    // Same sample as before: no report, no key frame, no USB update.
    let (mut kb, mut bt, mut led, mut usb) = rig();
    let state = KeyState::new();
    let reset = kb.process(&state, &mut bt, &mut led, &mut usb);
    assert!(!reset);
    assert!(bt.serial.usart.staged_buf.is_empty());
    assert!(bt.serial.usart.wire_log.is_empty());
    assert!(led.serial.usart.wire_log.is_empty());
    assert_eq!(usb.report, vec![1, 0, 0, 0, 0, 0, 0, 0]);
}

#[test]
fn single_letter_a_press() {
    // A sits at matrix position 29; its HID usage ID is 4.
    let (mut kb, mut bt, mut led, mut usb) = rig();
    let mut state = KeyState::new();
    state.set(29, true);
    let reset = kb.process(&state, &mut bt, &mut led, &mut usb);
    assert!(!reset);
    assert_eq!(usb.report, vec![0x00, 0x00, 0x04, 0x00, 0x00, 0x00, 0x00, 0x00]);
    // the report is staged for the Bluetooth module behind the wakeup gate
    assert_eq!(
        bt.serial.usart.staged_buf,
        vec![7, 9, 1, 0x00, 0x00, 0x04, 0x00, 0x00, 0x00, 0x00, 0x00]
    );
    assert!(bt.serial.usart.wire_log.is_empty());
    // the packed state goes to the LED controller as-is
    assert_eq!(
        led.serial.usart.wire_log,
        vec![9, 10, 7, 0, 0, 0, 0x20, 0, 0, 0, 0, 0]
    );
}

#[test]
fn lshift_and_a() {
    // LShift at position 42 sets modifier bit 1.
    let (mut kb, mut bt, mut led, mut usb) = rig();
    let mut state = KeyState::new();
    state.set(29, true);
    state.set(42, true);
    let reset = kb.process(&state, &mut bt, &mut led, &mut usb);
    assert!(!reset);
    assert_eq!(usb.report, vec![0x02, 0x00, 0x04, 0x00, 0x00, 0x00, 0x00, 0x00]);
}

#[test]
fn momentary_fn_then_bt_layer_latch() {
    // FN held (LayerMomentary(1)); under FN, B latches the Bluetooth
    // layer with LayerOn(3).  Releasing FN does not clear it.
    let (mut kb, mut bt, mut led, mut usb) = rig();
    let mut fn_only = KeyState::new();
    fn_only.set(67, true);
    assert!(!kb.process(&fn_only, &mut bt, &mut led, &mut usb));
    assert!(!kb.bluetooth_mode_enabled());
    drain_led(&mut led);
    let led_wire_before = led.serial.usart.wire_log.len();

    let mut fn_and_b = KeyState::new();
    fn_and_b.set(67, true);
    fn_and_b.set(47, true);
    assert!(!kb.process(&fn_and_b, &mut bt, &mut led, &mut usb));
    assert!(kb.bluetooth_mode_enabled());
    // the 0 -> 1 transition painted the Bluetooth status overlay
    let overlay = &led.serial.usart.wire_log[led_wire_before..];
    assert_eq!(&overlay[..5], &[9, 103, 11, 0xca, 20]);

    drain_led(&mut led);
    let mut b_only = KeyState::new();
    b_only.set(47, true);
    assert!(!kb.process(&b_only, &mut bt, &mut led, &mut usb));
    assert!(kb.bluetooth_mode_enabled());
}

#[test]
fn reset_action_stops_the_tick() {
    // Under FN, the Space position (61) is Reset.
    let (mut kb, mut bt, mut led, mut usb) = rig();
    let mut fn_only = KeyState::new();
    fn_only.set(67, true);
    assert!(!kb.process(&fn_only, &mut bt, &mut led, &mut usb));
    drain_led(&mut led);
    let led_wire_before = led.serial.usart.wire_log.len();
    let bt_staged_before = bt.serial.usart.staged_buf.clone();

    let mut fn_and_space = KeyState::new();
    fn_and_space.set(67, true);
    fn_and_space.set(61, true);
    assert!(kb.process(&fn_and_space, &mut bt, &mut led, &mut usb));
    // the tick stopped before any end-of-tick frame left
    assert_eq!(led.serial.usart.wire_log.len(), led_wire_before);
    assert_eq!(bt.serial.usart.staged_buf, bt_staged_before);
    // the sample was not committed, so the next tick sees it again
    assert!(kb.process(&fn_and_space, &mut bt, &mut led, &mut usb));
}

#[test]
fn layer_fallthrough_to_base() {
    // With FN active but transparent at a position, the base layer
    // decides.
    let mut kb = Keyboard::new();
    kb.layers.current = 0b11;
    // RAlt (66) is transparent on FN
    assert_eq!(kb.get_action(66), Action::Key(KeyCode::RAlt));
    // Grave replaces Escape on FN
    assert_eq!(kb.get_action(0), Action::Key(KeyCode::Grave));
    kb.layers.current = 0b1;
    assert_eq!(kb.get_action(0), Action::Key(KeyCode::Escape));
}

#[test]
fn modifier_bit_mapping() {
    // Each modifier Key(LCtrl + i) sets exactly bit i.
    let mods = [
        KeyCode::LCtrl,
        KeyCode::LShift,
        KeyCode::LAlt,
        KeyCode::LMeta,
        KeyCode::RCtrl,
        KeyCode::RShift,
        KeyCode::RAlt,
        KeyCode::RMeta,
    ];
    for (i, code) in mods.iter().enumerate() {
        let mut hid = HidProcessor::new();
        hid.process(&Action::Key(*code), true, true);
        assert_eq!(hid.report.modifiers, 1u8 << i);
        assert_eq!(hid.report.keys, vec![0, 0, 0, 0, 0, 0]);
    }
}

#[test]
fn report_overflow_drops_the_seventh() {
    // Seven normal keys: the first six fill the slots in order, the
    // seventh vanishes with no error.
    let mut hid = HidProcessor::new();
    let keys = [
        KeyCode::A,
        KeyCode::B,
        KeyCode::C,
        KeyCode::D,
        KeyCode::E,
        KeyCode::F,
        KeyCode::G,
    ];
    for code in keys {
        hid.process(&Action::Key(code), true, true);
    }
    assert_eq!(hid.report.keys, vec![4, 5, 6, 7, 8, 9]);
    assert_eq!(hid.report.modifiers, 0);
}

#[test]
fn momentary_follows_both_edges() {
    let mut layers = Layers::new();
    layers.process(&Action::LayerMomentary(1), true, true);
    assert_eq!(layers.next, 0b11);
    layers.process(&Action::LayerMomentary(1), false, true);
    assert_eq!(layers.next, 0b01);
    // toggle/on/off act on the press edge only
    layers.process(&Action::LayerToggle(2), true, true);
    assert_eq!(layers.next, 0b101);
    layers.process(&Action::LayerToggle(2), false, true);
    assert_eq!(layers.next, 0b101);
    layers.process(&Action::LayerOff(2), true, true);
    assert_eq!(layers.next, 0b001);
    layers.process(&Action::LayerOn(3), true, true);
    assert_eq!(layers.next, 0b1001);
    layers.finish();
    assert_eq!(layers.current, 0b1001);
}

#[test]
fn seven_keys_through_a_tick() {
    // Q W E R T Y U pressed in one tick: the report carries the first six
    // in key-index order (Q..Y) and drops U with no error.
    let (mut kb, mut bt, mut led, mut usb) = rig();
    let mut state = KeyState::new();
    for k in 15..22 {
        state.set(k, true);
    }
    let reset = kb.process(&state, &mut bt, &mut led, &mut usb);
    assert!(!reset);
    assert_eq!(usb.report, vec![0, 0, 20, 26, 8, 21, 23, 28]);
    assert_eq!(
        bt.serial.usart.staged_buf,
        vec![7, 9, 1, 0, 0, 20, 26, 8, 21, 23, 28]
    );
}
