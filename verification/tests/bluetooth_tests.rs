use anne_key::bluetooth::{Bluetooth, BluetoothMode};
use anne_key::hidreport::HidReport;
use anne_key::keyboard::Keyboard;
use anne_key::led::Led;
use anne_key::serial::bluetooth_usart::BluetoothUsart;
use anne_key::serial::led_usart::LedUsart;
use anne_key::serial::{Serial, RX_BUFFER_SIZE};

fn bt_rig() -> (Bluetooth, Led, Keyboard) {
    let bt_serial = Serial::new(BluetoothUsart::new(), vec![0u8; 0x80]);
    let bluetooth = Bluetooth::new(bt_serial, vec![0u8; RX_BUFFER_SIZE]);
    let led_serial = Serial::new(LedUsart::new(), vec![0u8; 0x80]);
    let led = Led::new(led_serial, vec![0u8; RX_BUFFER_SIZE]);
    (bluetooth, led, Keyboard::new())
}

/// Push one frame from the module through the two-stage receive.
fn receive_frame(bt: &mut Bluetooth, led: &mut Led, kb: &mut Keyboard, frame: &[u8]) {
    bt.serial.usart.deliver(frame[..2].to_vec());
    bt.poll(led, kb);
    bt.serial.usart.deliver(frame[2..].to_vec());
    bt.poll(led, kb);
}

#[test]
fn wakeup_handshake_releases_the_batch() {
    // bluetooth.on() pulses the wake line and stages [6,1,1]; the report
    // appends at position 3; AckWakeup releases exactly 14 bytes.
    let (mut bt, mut led, mut kb) = bt_rig();
    assert!(bt.on().is_ok());
    assert!(bt.serial.usart.wake_raised);
    assert_eq!(bt.serial.usart.staged_buf, vec![6, 1, 1]);
    let mut report = HidReport::new();
    report.keys[0] = 0x04;
    assert!(bt.send_report(&report).is_ok());
    assert_eq!(bt.serial.send_buffer_pos, 14);
    assert!(bt.serial.usart.wire_log.is_empty());

    receive_frame(&mut bt, &mut led, &mut kb, &[6, 1, 170]);
    assert_eq!(
        bt.serial.usart.wire_log,
        vec![6, 1, 1, 7, 9, 1, 0, 0, 0x04, 0, 0, 0, 0, 0]
    );
    assert!(bt.serial.usart.staged_buf.is_empty());
    assert_eq!(bt.serial.send_buffer_pos, 0);
    // the released burst is draining: the link is busy until tx-complete
    assert!(bt.serial.usart.tx_busy);
    assert!(bt.host_list_query().is_err());
    bt.serial.usart.complete_tx();
    bt.serial.tx_interrupt();
    assert!(bt.host_list_query().is_ok());
    assert_eq!(bt.serial.usart.staged_buf, vec![6, 1, 6]);
}

#[test]
fn host_list_ingest() {
    // (Ble, AckHostListQuery, [0b1101, 2, 1]): saved slots 13, connected
    // slot 2, legacy mode; with the Bluetooth layer up, the overlay is
    // repainted from those values.
    let (mut bt, mut led, mut kb) = bt_rig();
    kb.layers.current = 0b1001;
    receive_frame(&mut bt, &mut led, &mut kb, &[6, 4, 134, 0b1101, 2, 1]);
    assert_eq!(bt.saved_hosts, 13);
    assert_eq!(bt.connected_host, 2);
    assert_eq!(bt.mode, BluetoothMode::Legacy);
    let wire = &led.serial.usart.wire_log;
    assert_eq!(&wire[..5], &[9, 103, 11, 0xca, 20]);
    // N1 record: connected slot 1 is off, slot 2 on — [1, cu, 0xff, c1, 1]
    assert_eq!(&wire[10..15], &[1, 0x00, 0xff, 0x00, 1]);
    // N2 record shows the connected slot
    assert_eq!(&wire[15..20], &[2, 0x00, 0xff, 0xff, 1]);
}

#[test]
fn host_list_ingest_without_bt_layer_keeps_led_quiet() {
    let (mut bt, mut led, mut kb) = bt_rig();
    receive_frame(&mut bt, &mut led, &mut kb, &[6, 4, 134, 0b0001, 0, 0]);
    assert_eq!(bt.saved_hosts, 1);
    assert_eq!(bt.connected_host, 0);
    assert_eq!(bt.mode, BluetoothMode::Ble);
    assert!(led.serial.usart.wire_log.is_empty());
}

#[test]
fn pair_drops_bt_layer_and_paints_pin_mode() {
    let (mut bt, mut led, mut kb) = bt_rig();
    kb.layers.current = 0b1001;
    receive_frame(&mut bt, &mut led, &mut kb, &[6, 1, 13]);
    assert!(!kb.bluetooth_mode_enabled());
    assert_eq!(kb.layers.current, 0b0001);
    let wire = &led.serial.usart.wire_log;
    assert_eq!(&wire[..5], &[9, 58, 11, 0xca, 11]);
    // Enter record, blue
    assert_eq!(&wire[55..60], &[41, 0x00, 0x00, 0xff, 1]);
}

#[test]
fn get_id_replies_with_two_blocks() {
    let (mut bt, mut led, mut kb) = bt_rig();
    receive_frame(&mut bt, &mut led, &mut kb, &[2, 1, 1]);
    assert_eq!(
        bt.serial.usart.staged_buf,
        vec![
            2, 12, 129, 10, 2, 0, 1, 2, 1, 2, 3, 4, 5, 6, //
            2, 10, 129, 8, 2, 1, 7, 8, 9, 10, 11, 12
        ]
    );
    assert!(bt.serial.usart.wire_log.is_empty());
}

#[test]
fn sync_code_acks() {
    let (mut bt, mut led, mut kb) = bt_rig();
    receive_frame(&mut bt, &mut led, &mut kb, &[2, 1, 8]);
    assert_eq!(bt.serial.usart.staged_buf, vec![2, 2, 136, 1]);
    receive_frame(&mut bt, &mut led, &mut kb, &[2, 1, 9]);
    assert_eq!(bt.serial.usart.staged_buf, vec![2, 2, 136, 1, 2, 1, 136]);
}

#[test]
fn toggle_legacy_mode_follows_reported_mode() {
    let (mut bt, _led, _kb) = bt_rig();
    bt.mode = BluetoothMode::Ble;
    assert!(bt.toggle_legacy_mode().is_ok());
    assert_eq!(bt.serial.usart.staged_buf, vec![6, 2, 12, 1]);
    let (mut bt2, _led2, _kb2) = bt_rig();
    bt2.mode = BluetoothMode::Legacy;
    assert!(bt2.toggle_legacy_mode().is_ok());
    assert_eq!(bt2.serial.usart.staged_buf, vec![6, 2, 12, 0]);
}

#[test]
fn command_frames() {
    let (mut bt, _led, _kb) = bt_rig();
    assert!(bt.save_host(2).is_ok());
    assert!(bt.connect_host(3).is_ok());
    assert!(bt.delete_host(4).is_ok());
    assert!(bt.broadcast().is_ok());
    assert!(bt.host_list_query().is_ok());
    assert_eq!(
        bt.serial.usart.staged_buf,
        vec![6, 2, 3, 2, 6, 2, 4, 3, 6, 2, 5, 4, 6, 1, 7, 6, 1, 6]
    );
}

#[test]
fn led_theme_mode_message_forwards_to_led() {
    let (mut bt, mut led, mut kb) = bt_rig();
    receive_frame(&mut bt, &mut led, &mut kb, &[9, 2, 1, 5]);
    assert_eq!(led.serial.usart.wire_log, vec![9, 2, 1, 5]);
}
