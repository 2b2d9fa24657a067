use anne_key::keystate::KeyState;
use anne_key::led::Led;
use anne_key::serial::led_usart::LedUsart;
use anne_key::serial::{Serial, RX_BUFFER_SIZE};

fn led_rig() -> Led {
    let serial = Serial::new(LedUsart::new(), vec![0u8; 0x80]);
    Led::new(serial, vec![0u8; RX_BUFFER_SIZE])
}

fn drain(led: &mut Led) {
    led.serial.usart.complete_tx();
    led.serial.tx_interrupt();
}

#[test]
fn config_cycling_frames() {
    let mut led = led_rig();
    assert!(led.next_theme().is_ok());
    drain(&mut led);
    assert!(led.next_animation_speed().is_ok());
    drain(&mut led);
    assert!(led.next_brightness().is_ok());
    assert_eq!(
        led.serial.usart.wire_log,
        vec![9, 4, 5, 1, 0, 0, 9, 4, 5, 0, 1, 0, 9, 4, 5, 0, 0, 1]
    );
}

#[test]
fn theme_frames_and_state() {
    let mut led = led_rig();
    assert!(!led.state);
    assert!(led.theme_mode().is_ok());
    assert!(led.state);
    drain(&mut led);
    assert!(led.set_theme(5).is_ok());
    assert_eq!(led.serial.usart.wire_log, vec![9, 1, 1, 9, 2, 1, 5]);
}

#[test]
fn toggle_flips_between_theme_and_black() {
    let mut led = led_rig();
    assert!(led.toggle().is_ok());
    assert!(led.state);
    assert_eq!(led.serial.usart.wire_log, vec![9, 1, 1]);
    drain(&mut led);
    assert!(led.toggle().is_ok());
    assert!(!led.state);
    // blanking selects the black theme, 15
    assert_eq!(led.serial.usart.wire_log, vec![9, 1, 1, 9, 2, 1, 15]);
}

#[test]
fn power_line_follows_on_off() {
    // The blank/drawing flag mirrors the power line in both directions.
    let mut led = led_rig();
    assert!(!led.power);
    assert!(led.on().is_ok());
    assert!(led.power);
    assert!(led.state);
    assert!(led.off().is_ok());
    assert!(!led.power);
    assert!(!led.state);
    // the power line is a GPIO: no frame leaves
    assert!(led.serial.usart.wire_log.is_empty());
}

#[test]
fn send_keys_carries_the_packed_state() {
    let mut led = led_rig();
    let mut state = KeyState::new();
    state.set(0, true);
    state.set(69, true);
    assert!(led.send_keys(&state).is_ok());
    assert_eq!(
        led.serial.usart.wire_log,
        vec![9, 10, 7, 1, 0, 0, 0, 0, 0, 0, 0, 0x20]
    );
}

#[test]
fn busy_link_drops_the_frame() {
    let mut led = led_rig();
    assert!(led.next_theme().is_ok());
    assert!(led.next_theme().is_err());
    assert_eq!(led.serial.usart.wire_log.len(), 6);
}

#[test]
fn poll_rearms_after_an_ack() {
    let mut led = led_rig();
    // AckThemeMode with the theme id
    led.serial.usart.deliver(vec![9, 2]);
    led.poll();
    led.serial.usart.deliver(vec![129, 3]);
    led.poll();
    // the reply is discarded and a fresh header receive is armed
    assert!(led.rx_transfer.is_some());
    assert!(led.serial.usart.wire_log.is_empty());
    led.serial.usart.deliver(vec![9, 2]);
    led.poll();
}

#[test]
fn music_and_theme_queries() {
    let mut led = led_rig();
    assert!(led.send_music(&vec![1, 2, 3]).is_ok());
    drain(&mut led);
    assert!(led.get_theme_id().is_ok());
    assert_eq!(
        led.serial.usart.wire_log,
        vec![9, 4, 6, 1, 2, 3, 9, 1, 12]
    );
}
