use anne_key::protocol::{Message, MsgType};
use anne_key::serial::bluetooth_usart::BluetoothUsart;
use anne_key::serial::led_usart::LedUsart;
use anne_key::serial::{Serial, RX_BUFFER_SIZE};

fn led_serial() -> Serial<LedUsart> {
    Serial::new(LedUsart::new(), vec![0u8; 0x80])
}

fn bt_serial() -> Serial<BluetoothUsart> {
    Serial::new(BluetoothUsart::new(), vec![0u8; 0x80])
}

#[test]
fn frame_length_law() {
    // Frame length law: send produces 3 + |data| bytes whose first three are
    // [type, 1 + |data|, op]; on the LED link they go out at once.
    let mut serial = led_serial();
    let r = serial.send(MsgType::Led, 5, &vec![1, 0, 0]);
    assert!(r.is_ok());
    assert_eq!(serial.usart.wire_log, vec![9, 4, 5, 1, 0, 0]);
    assert_eq!(serial.send_buffer_pos, 6);
}

#[test]
fn frame_empty_payload() {
    let mut serial = led_serial();
    let r = serial.send(MsgType::Led, 1, &vec![]);
    assert!(r.is_ok());
    assert_eq!(serial.usart.wire_log, vec![9, 1, 1]);
}

#[test]
fn receive_symmetry_two_polls() {
    // Receive symmetry: a frame produced by the send shape decodes back through the
    // two-stage receive.
    let mut serial = led_serial();
    let mut transfer = serial.receive(vec![0u8; RX_BUFFER_SIZE]);
    // header: Keyboard.KeyReport with 8 payload bytes (length byte 9)
    serial.usart.deliver(vec![7, 9]);
    assert!(transfer.poll(&mut serial.usart).is_err());
    // body: operation plus the 8 payload bytes
    serial.usart.deliver(vec![1, 0, 0, 4, 0, 0, 0, 0, 0]);
    assert!(transfer.poll(&mut serial.usart).is_ok());
    let buffer = transfer.finish();
    let m = Message::parse(&buffer).unwrap();
    assert_eq!(m.msg_type, MsgType::Keyboard);
    assert_eq!(m.operation, 1);
    assert_eq!(m.data, vec![0, 0, 4, 0, 0, 0, 0, 0]);
}

#[test]
fn poll_without_pending_blocks() {
    let mut serial = led_serial();
    let mut transfer = serial.receive(vec![0u8; RX_BUFFER_SIZE]);
    assert!(transfer.poll(&mut serial.usart).is_err());
    assert!(transfer.poll(&mut serial.usart).is_err());
}

#[test]
fn unknown_kind_parses_to_nothing() {
    let mut buffer = vec![0u8; RX_BUFFER_SIZE];
    buffer[0] = 200;
    buffer[1] = 1;
    buffer[2] = 7;
    assert!(Message::parse(&buffer).is_none());
    // a zero length byte decodes to nothing either
    let mut zero = vec![0u8; RX_BUFFER_SIZE];
    zero[0] = 6;
    zero[1] = 0;
    assert!(Message::parse(&zero).is_none());
}

#[test]
fn led_busy_send_would_block() {
    let mut serial = led_serial();
    assert!(serial.send(MsgType::Led, 1, &vec![]).is_ok());
    // the DMA burst is still draining: the next frame is refused
    let r = serial.send(MsgType::Led, 1, &vec![]);
    assert!(r.is_err());
    assert_eq!(serial.usart.wire_log, vec![9, 1, 1]);
    serial.usart.complete_tx();
    serial.tx_interrupt();
    assert_eq!(serial.send_buffer_pos, 0);
    assert!(serial.send(MsgType::Led, 1, &vec![]).is_ok());
}

#[test]
fn full_buffer_send_would_block() {
    let mut serial = Serial::new(LedUsart::new(), vec![0u8; 4]);
    // frame of 5 bytes cannot fit a 4-byte buffer
    let r = serial.send(MsgType::Led, 2, &vec![1, 2]);
    assert!(r.is_err());
    assert_eq!(serial.send_buffer_pos, 0);
    assert!(serial.usart.wire_log.is_empty());
}

#[test]
fn bluetooth_send_stages_without_emitting() {
    // Wakeup gate: between send and the wakeup ack, nothing is on the wire and
    // further sends still succeed, batched into the same burst.
    let mut serial = bt_serial();
    assert!(serial.send(MsgType::Ble, 1, &vec![]).is_ok());
    assert!(serial.usart.wire_log.is_empty());
    assert_eq!(serial.usart.staged_buf, vec![6, 1, 1]);
    assert!(serial.usart.wake_raised);
    assert!(serial.send(MsgType::Ble, 6, &vec![]).is_ok());
    assert!(serial.usart.wire_log.is_empty());
    assert_eq!(serial.usart.staged_buf, vec![6, 1, 1, 6, 1, 6]);
    assert_eq!(serial.send_buffer_pos, 6);
}
