//! High-level driver for the companion LED controller.
//!
//! Owns the LED serial link, the in-flight receive, the hard LED-power
//! line and the theme/blank flag.  Commands are one frame each; the
//! controller's replies are benign acknowledgements and are discarded.

use vstd::prelude::*;
use crate::bluetooth::BluetoothMode;
use crate::bits::{get_bit8, u8_bit};
use crate::keystate::KeyState;
use crate::protocol::{LedOp, Message, MsgType};
use crate::keycodes::{KeyIndex, key_index_value};
use crate::serial::{
    DmaUsart, ReceiveStage, Serial, Transfer, WouldBlock, overlay, send_result, HEADER_SIZE,
    RX_BUFFER_SIZE,
};
use crate::serial::led_usart::{LedUsart, LedUsartView, spec_led_send};

verus! {

/// How a per-key LED overlay record drives its key.
#[derive(Copy, Clone, PartialEq, Eq, Structural, Debug)]
pub enum LedMode {
    Off,
    On,
    Flash,
}

pub open spec fn led_mode_value(m: LedMode) -> u8 {
    match m {
        LedMode::Off => 0,
        LedMode::On => 1,
        LedMode::Flash => 2,
    }
}

impl LedMode {
    pub fn to_u8(self) -> (r: u8)
        ensures
            r == led_mode_value(self),
    {
        match self {
            LedMode::Off => 0,
            LedMode::On => 1,
            LedMode::Flash => 2,
        }
    }
}

/// Observable state of the LED serial link.
#[verifier::ext_equal]
pub ghost struct LedSerialView {
    pub usart: LedUsartView,
    pub send_buffer: Seq<u8>,
    pub send_buffer_pos: int,
}

pub open spec fn led_serial_view(s: Serial<LedUsart>) -> LedSerialView {
    LedSerialView {
        usart: s.usart@,
        send_buffer: s.send_buffer@,
        send_buffer_pos: s.send_buffer_pos as int,
    }
}

/// Whether a frame of `n` payload bytes would be accepted now.
pub open spec fn led_send_fits(v: LedSerialView, n: int) -> bool {
    !v.usart.tx_busy && v.send_buffer_pos + 3 + n <= v.send_buffer.len()
}

/// `Serial::send` on the LED link, as a function of the view: append the
/// frame at the cursor and emit the whole batched prefix, or change nothing.
pub open spec fn spec_led_serial_send(
    v: LedSerialView,
    t: MsgType,
    op: u8,
    data: Seq<u8>,
) -> LedSerialView {
    if led_send_fits(v, data.len() as int) {
        let buf = overlay(v.send_buffer, v.send_buffer_pos, crate::serial::frame_bytes(t, op, data));
        let pos = v.send_buffer_pos + 3 + data.len();
        LedSerialView { usart: spec_led_send(v.usart, buf.take(pos)), send_buffer: buf, send_buffer_pos: pos }
    } else {
        v
    }
}

/// `send_result` on the LED link determines the view transition.
pub proof fn lemma_led_send_view(
    pre: Serial<LedUsart>,
    post: Serial<LedUsart>,
    t: MsgType,
    op: u8,
    data: Seq<u8>,
    ok: bool,
)
    requires
        send_result(pre, post, t, op, data, ok),
    ensures
        led_serial_view(post) == spec_led_serial_send(led_serial_view(pre), t, op, data),
        ok == led_send_fits(led_serial_view(pre), data.len() as int),
{
    if ok {
        assert(led_serial_view(post) =~= spec_led_serial_send(led_serial_view(pre), t, op, data));
    } else {
        assert(led_serial_view(post) =~= led_serial_view(pre));
    }
}

/// Observable driver state that key actions act on.  The in-flight receive
/// is bookkeeping outside it and is left untouched by every command.
#[verifier::ext_equal]
pub ghost struct LedView {
    pub serial: LedSerialView,
    pub power: bool,
    pub state: bool,
}

/// The driver for the LED companion MCU.
pub struct Led {
    pub serial: Serial<LedUsart>,
    pub rx_transfer: Option<Transfer>,
    pub power: bool,
    pub state: bool,
}

pub open spec fn led_view(l: Led) -> LedView {
    LedView { serial: led_serial_view(l.serial), power: l.power, state: l.state }
}

/// One LED command frame, at the view level.
pub open spec fn spec_led_sent(v: LedView, op: u8, data: Seq<u8>) -> LedView {
    LedView { serial: spec_led_serial_send(v.serial, MsgType::Led, op, data), ..v }
}

/// `theme_mode`: mark the pipeline as drawing themes and ask for theme mode.
pub open spec fn spec_led_theme_mode(v: LedView) -> LedView {
    spec_led_sent(LedView { state: true, ..v }, 1, Seq::<u8>::empty())
}

/// `toggle`: flip the blank/drawing flag; drawing asks for theme mode,
/// blanking selects the black theme (15).
pub open spec fn spec_led_toggle(v: LedView) -> LedView {
    if !v.state {
        spec_led_theme_mode(LedView { state: true, ..v })
    } else {
        spec_led_sent(LedView { state: false, ..v }, 1, seq![15u8])
    }
}

/// A five-byte per-key overlay record: key position, colour, mode.
pub open spec fn rec(k: u8, r: u8, g: u8, b: u8, m: u8) -> Seq<u8> {
    seq![k, r, g, b, m]
}

/// The Bluetooth status overlay painted over the number row and the
/// host-slot keys: Escape yellow; N1-N4 show the connected slot; Q/W/E/R
/// and A/S/D/F show saved slots; N0 shows the link mode colour; N5 shows
/// whether USB reports are on (steady) or off (flashing).
pub open spec fn bluetooth_mode_payload(
    saved_hosts: u8,
    connected_host: u8,
    mode: BluetoothMode,
    usb_report: bool,
) -> Seq<u8> {
    let s1: u8 = if u8_bit(saved_hosts, 0) { 0xff } else { 0x00 };
    let s2: u8 = if u8_bit(saved_hosts, 1) { 0xff } else { 0x00 };
    let s3: u8 = if u8_bit(saved_hosts, 2) { 0xff } else { 0x00 };
    let s4: u8 = if u8_bit(saved_hosts, 3) { 0xff } else { 0x00 };
    let c1: u8 = if connected_host == 1 { 0xff } else { 0x00 };
    let c2: u8 = if connected_host == 2 { 0xff } else { 0x00 };
    let c3: u8 = if connected_host == 3 { 0xff } else { 0x00 };
    let c4: u8 = if connected_host == 4 { 0xff } else { 0x00 };
    let cu: u8 = if connected_host == 12 { 0xff } else { 0x00 };
    let mr: u8 = if mode == BluetoothMode::Ble { 0x00 } else { 0xff };
    let mg: u8 = if mode == BluetoothMode::Unknown { 0x00 } else { 0xff };
    let um: u8 = if usb_report {
        led_mode_value(LedMode::On)
    } else {
        led_mode_value(LedMode::Flash)
    };
    bm_select_records(cu, c1, c2, c3, c4, s1, s2, s3, s4) + bm_status_records(s1, s2, s3, s4, mr, mg, um)
}

/// Head and host-selection half of the status overlay: Escape, the
/// connect row (N1-N4) and the save row (Q/W/E/R).
pub open spec fn bm_select_records(
    cu: u8,
    c1: u8,
    c2: u8,
    c3: u8,
    c4: u8,
    s1: u8,
    s2: u8,
    s3: u8,
    s4: u8,
) -> Seq<u8> {
    let on = led_mode_value(LedMode::On);
    seq![0xcau8, 20u8] + rec(key_index_value(KeyIndex::Escape), 0xff, 0xff, 0x00, on) + rec(
        key_index_value(KeyIndex::N1),
        cu,
        0xff,
        c1,
        on,
    ) + rec(key_index_value(KeyIndex::N2), cu, 0xff, c2, on) + rec(
        key_index_value(KeyIndex::N3),
        cu,
        0xff,
        c3,
        on,
    ) + rec(key_index_value(KeyIndex::N4), cu, 0xff, c4, on) + rec(
        key_index_value(KeyIndex::Q),
        0x00,
        s1,
        0xff,
        on,
    ) + rec(key_index_value(KeyIndex::W), 0x00, s2, 0xff, on) + rec(
        key_index_value(KeyIndex::E),
        0x00,
        s3,
        0xff,
        on,
    ) + rec(key_index_value(KeyIndex::R), 0x00, s4, 0xff, on)
}

/// Delete row (A/S/D/F) and the status keys of the overlay.
pub open spec fn bm_status_records(
    s1: u8,
    s2: u8,
    s3: u8,
    s4: u8,
    mr: u8,
    mg: u8,
    um: u8,
) -> Seq<u8> {
    let on = led_mode_value(LedMode::On);
    rec(key_index_value(KeyIndex::A), s1, 0x00, 0x00, on) + rec(
        key_index_value(KeyIndex::S),
        s2,
        0x00,
        0x00,
        on,
    ) + rec(key_index_value(KeyIndex::D), s3, 0x00, 0x00, on) + rec(
        key_index_value(KeyIndex::F),
        s4,
        0x00,
        0x00,
        on,
    ) + rec(key_index_value(KeyIndex::LCtrl), 0xff, 0xff, 0xff, on) + rec(
        key_index_value(KeyIndex::Equal),
        0x00,
        0xff,
        0x00,
        on,
    ) + rec(key_index_value(KeyIndex::BSpace), 0x00, 0x00, 0xff, on) + rec(
        key_index_value(KeyIndex::B),
        0x00,
        0xff,
        0x00,
        led_mode_value(LedMode::Flash),
    ) + rec(key_index_value(KeyIndex::Minus), 0xff, 0x00, 0x00, on) + rec(
        key_index_value(KeyIndex::N0),
        mr,
        mg,
        0x00,
        on,
    ) + rec(key_index_value(KeyIndex::N5), 0xff, 0xff, 0xff, um)
}

/// The PIN-entry overlay: the digit row green and Enter blue.
pub open spec fn bluetooth_pin_payload() -> Seq<u8> {
    let on = led_mode_value(LedMode::On);
    seq![0xcau8, 11u8] + rec(key_index_value(KeyIndex::N1), 0x00, 0xff, 0x00, on) + rec(
        key_index_value(KeyIndex::N2),
        0x00,
        0xff,
        0x00,
        on,
    ) + rec(key_index_value(KeyIndex::N3), 0x00, 0xff, 0x00, on) + rec(
        key_index_value(KeyIndex::N4),
        0x00,
        0xff,
        0x00,
        on,
    ) + rec(key_index_value(KeyIndex::N5), 0x00, 0xff, 0x00, on) + rec(
        key_index_value(KeyIndex::N6),
        0x00,
        0xff,
        0x00,
        on,
    ) + rec(key_index_value(KeyIndex::N7), 0x00, 0xff, 0x00, on) + rec(
        key_index_value(KeyIndex::N8),
        0x00,
        0xff,
        0x00,
        on,
    ) + rec(key_index_value(KeyIndex::N9), 0x00, 0xff, 0x00, on) + rec(
        key_index_value(KeyIndex::N0),
        0x00,
        0xff,
        0x00,
        on,
    ) + rec(key_index_value(KeyIndex::Enter), 0x00, 0x00, 0xff, on)
}

impl Led {
    pub open spec fn wf(self) -> bool {
        &&& self.serial.wf()
        &&& self.rx_transfer matches Some(t) && t.wf()
    }

    /// Bind the serial link to its receive buffer and start listening:
    /// a header receive is armed at once, and the transmitter is as the
    /// serial link left it.
    pub fn new(serial: Serial<LedUsart>, rx_buffer: Vec<u8>) -> (l: Led)
        requires
            serial.wf(),
            rx_buffer@.len() >= RX_BUFFER_SIZE,
        ensures
            l.wf(),
            led_view(l).serial.send_buffer == serial.send_buffer@,
            led_view(l).serial.send_buffer_pos == serial.send_buffer_pos as int,
            led_view(l).serial.usart.wire == serial.usart@.wire,
            l.serial.usart.rx_armed_len() == HEADER_SIZE,
            !l.serial.usart.rx_pending(),
            l.serial.usart.tx_ready() == serial.usart.tx_ready(),
            l.rx_transfer matches Some(t) && t.stage == ReceiveStage::Header && t.buffer@
                == rx_buffer@,
            !l.power,
            !l.state,
    {
        let mut serial = serial;
        let rx_transfer = serial.receive(rx_buffer);
        Led { serial, rx_transfer: Some(rx_transfer), power: false, state: false }
    }

    /// Drive the LED power line high; the blank/drawing flag mirrors the
    /// pin.
    pub fn on(&mut self) -> (r: Result<(), WouldBlock>)
        requires
            old(self).wf(),
        ensures
            final(self).wf(),
            r is Ok,
            led_view(*final(self)) == (LedView {
                power: true,
                state: true,
                ..led_view(*old(self))
            }),
            final(self).rx_transfer == old(self).rx_transfer,
    {
        self.power = true;
        self.state = true;
        proof {
            assert(led_view(*final(self)) =~= (LedView {
                power: true,
                state: true,
                ..led_view(*old(self))
            }));
        }
        Ok(())
    }

    /// Drive the LED power line low; the pipeline is no longer drawing.
    pub fn off(&mut self) -> (r: Result<(), WouldBlock>)
        requires
            old(self).wf(),
        ensures
            final(self).wf(),
            r is Ok,
            led_view(*final(self)) == (LedView {
                power: false,
                state: false,
                ..led_view(*old(self))
            }),
            final(self).rx_transfer == old(self).rx_transfer,
    {
        self.power = false;
        self.state = false;
        proof {
            assert(led_view(*final(self)) =~= (LedView {
                power: false,
                state: false,
                ..led_view(*old(self))
            }));
        }
        Ok(())
    }

    /// Flip between drawing themes and a blanked board.
    pub fn toggle(&mut self) -> (r: Result<(), WouldBlock>)
        requires
            old(self).wf(),
        ensures
            final(self).wf(),
            led_view(*final(self)) == spec_led_toggle(led_view(*old(self))),
            r is Ok == led_send_fits(led_view(*old(self)).serial, if old(self).state { 1int } else { 0int }),
            final(self).rx_transfer == old(self).rx_transfer,
    {
        if !self.state {
            self.theme_mode()
        } else {
            self.state = false;
            let data: Vec<u8> = vec_one(15);
            let r = self.serial.send(MsgType::Led, LedOp::ThemeMode.to_u8(), &data);
            proof {
                lemma_led_send_view(
                    old(self).serial,
                    final(self).serial,
                    MsgType::Led,
                    1,
                    data@,
                    r is Ok,
                );
                assert(led_view(*final(self)) =~= spec_led_toggle(led_view(*old(self))));
            }
            r
        }
    }

    /// Cycle to the next theme.
    pub fn next_theme(&mut self) -> (r: Result<(), WouldBlock>)
        requires
            old(self).wf(),
        ensures
            final(self).wf(),
            led_view(*final(self)) == spec_led_sent(led_view(*old(self)), 5, seq![1u8, 0u8, 0u8]),
            r is Ok == led_send_fits(led_view(*old(self)).serial, 3),
            final(self).rx_transfer == old(self).rx_transfer,
    {
        let data: Vec<u8> = vec_three(1, 0, 0);
        let r = self.serial.send(MsgType::Led, LedOp::ConfigCmd.to_u8(), &data);
        proof {
            lemma_led_send_view(old(self).serial, final(self).serial, MsgType::Led, 5, data@, r is Ok);
            assert(led_view(*final(self)) =~= spec_led_sent(led_view(*old(self)), 5, data@));
        }
        r
    }

    /// Cycle to the next brightness step.
    pub fn next_brightness(&mut self) -> (r: Result<(), WouldBlock>)
        requires
            old(self).wf(),
        ensures
            final(self).wf(),
            led_view(*final(self)) == spec_led_sent(led_view(*old(self)), 5, seq![0u8, 0u8, 1u8]),
            r is Ok == led_send_fits(led_view(*old(self)).serial, 3),
            final(self).rx_transfer == old(self).rx_transfer,
    {
        let data: Vec<u8> = vec_three(0, 0, 1);
        let r = self.serial.send(MsgType::Led, LedOp::ConfigCmd.to_u8(), &data);
        proof {
            lemma_led_send_view(old(self).serial, final(self).serial, MsgType::Led, 5, data@, r is Ok);
            assert(led_view(*final(self)) =~= spec_led_sent(led_view(*old(self)), 5, data@));
        }
        r
    }

    /// Cycle to the next animation speed.
    pub fn next_animation_speed(&mut self) -> (r: Result<(), WouldBlock>)
        requires
            old(self).wf(),
        ensures
            final(self).wf(),
            led_view(*final(self)) == spec_led_sent(led_view(*old(self)), 5, seq![0u8, 1u8, 0u8]),
            r is Ok == led_send_fits(led_view(*old(self)).serial, 3),
            final(self).rx_transfer == old(self).rx_transfer,
    {
        let data: Vec<u8> = vec_three(0, 1, 0);
        let r = self.serial.send(MsgType::Led, LedOp::ConfigCmd.to_u8(), &data);
        proof {
            lemma_led_send_view(old(self).serial, final(self).serial, MsgType::Led, 5, data@, r is Ok);
            assert(led_view(*final(self)) =~= spec_led_sent(led_view(*old(self)), 5, data@));
        }
        r
    }

    /// Select a theme by number.
    pub fn set_theme(&mut self, theme: u8) -> (r: Result<(), WouldBlock>)
        requires
            old(self).wf(),
        ensures
            final(self).wf(),
            led_view(*final(self)) == spec_led_sent(led_view(*old(self)), 1, seq![theme]),
            r is Ok == led_send_fits(led_view(*old(self)).serial, 1),
            final(self).rx_transfer == old(self).rx_transfer,
    {
        let data: Vec<u8> = vec_one(theme);
        let r = self.serial.send(MsgType::Led, LedOp::ThemeMode.to_u8(), &data);
        proof {
            lemma_led_send_view(old(self).serial, final(self).serial, MsgType::Led, 1, data@, r is Ok);
            assert(led_view(*final(self)) =~= spec_led_sent(led_view(*old(self)), 1, data@));
        }
        r
    }

    /// Send the packed key state for theme activation.
    pub fn send_keys(&mut self, state: &KeyState) -> (r: Result<(), WouldBlock>)
        requires
            old(self).wf(),
            state.wf(),
        ensures
            final(self).wf(),
            led_view(*final(self)) == spec_led_sent(led_view(*old(self)), 7, state.bytes@),
            r is Ok == led_send_fits(led_view(*old(self)).serial, state.bytes@.len() as int),
            final(self).rx_transfer == old(self).rx_transfer,
    {
        let data = state.to_bytes();
        let r = self.serial.send(MsgType::Led, LedOp::Key.to_u8(), &data);
        proof {
            lemma_led_send_view(old(self).serial, final(self).serial, MsgType::Led, 7, data@, r is Ok);
            assert(led_view(*final(self)) =~= spec_led_sent(led_view(*old(self)), 7, data@));
        }
        r
    }

    /// Send music visualisation data.
    pub fn send_music(&mut self, keys: &Vec<u8>) -> (r: Result<(), WouldBlock>)
        requires
            old(self).wf(),
            keys@.len() <= 254,
        ensures
            final(self).wf(),
            led_view(*final(self)) == spec_led_sent(led_view(*old(self)), 6, keys@),
            r is Ok == led_send_fits(led_view(*old(self)).serial, keys@.len() as int),
            final(self).rx_transfer == old(self).rx_transfer,
    {
        let r = self.serial.send(MsgType::Led, LedOp::Music.to_u8(), keys);
        proof {
            lemma_led_send_view(old(self).serial, final(self).serial, MsgType::Led, 6, keys@, r is Ok);
            assert(led_view(*final(self)) =~= spec_led_sent(led_view(*old(self)), 6, keys@));
        }
        r
    }

    /// Ask which theme is active; the controller replies with its id.
    pub fn get_theme_id(&mut self) -> (r: Result<(), WouldBlock>)
        requires
            old(self).wf(),
        ensures
            final(self).wf(),
            led_view(*final(self)) == spec_led_sent(led_view(*old(self)), 12, Seq::<u8>::empty()),
            r is Ok == led_send_fits(led_view(*old(self)).serial, 0),
            final(self).rx_transfer == old(self).rx_transfer,
    {
        let data: Vec<u8> = Vec::new();
        let r = self.serial.send(MsgType::Led, LedOp::GetThemeId.to_u8(), &data);
        proof {
            lemma_led_send_view(old(self).serial, final(self).serial, MsgType::Led, 12, data@, r is Ok);
            assert(led_view(*final(self)) =~= spec_led_sent(led_view(*old(self)), 12, data@));
        }
        r
    }

    /// Paint a per-key overlay; the payload is `0xCA`, a record count, and
    /// five bytes per key.
    pub fn set_keys(&mut self, payload: &Vec<u8>) -> (r: Result<(), WouldBlock>)
        requires
            old(self).wf(),
            payload@.len() <= 254,
        ensures
            final(self).wf(),
            led_view(*final(self)) == spec_led_sent(led_view(*old(self)), 11, payload@),
            r is Ok == led_send_fits(led_view(*old(self)).serial, payload@.len() as int),
            final(self).rx_transfer == old(self).rx_transfer,
    {
        let r = self.serial.send(MsgType::Led, LedOp::SetIndividualKeys.to_u8(), payload);
        proof {
            lemma_led_send_view(
                old(self).serial,
                final(self).serial,
                MsgType::Led,
                11,
                payload@,
                r is Ok,
            );
            assert(led_view(*final(self)) =~= spec_led_sent(led_view(*old(self)), 11, payload@));
        }
        r
    }

    /// Return the controller to normal theme drawing.
    pub fn theme_mode(&mut self) -> (r: Result<(), WouldBlock>)
        requires
            old(self).wf(),
        ensures
            final(self).wf(),
            led_view(*final(self)) == spec_led_theme_mode(led_view(*old(self))),
            r is Ok == led_send_fits(led_view(*old(self)).serial, 0),
            final(self).rx_transfer == old(self).rx_transfer,
    {
        self.state = true;
        let data: Vec<u8> = Vec::new();
        let r = self.serial.send(MsgType::Led, LedOp::ThemeMode.to_u8(), &data);
        proof {
            lemma_led_send_view(old(self).serial, final(self).serial, MsgType::Led, 1, data@, r is Ok);
            assert(led_view(*final(self)) =~= spec_led_theme_mode(led_view(*old(self))));
        }
        r
    }

    /// Paint the Bluetooth status overlay from the tracked host state.
    pub fn bluetooth_mode(
        &mut self,
        saved_hosts: u8,
        connected_host: u8,
        mode: BluetoothMode,
        keyboard_send_usb_report: bool,
    ) -> (r: Result<(), WouldBlock>)
        requires
            old(self).wf(),
        ensures
            final(self).wf(),
            led_view(*final(self)) == spec_led_sent(
                led_view(*old(self)),
                11,
                bluetooth_mode_payload(saved_hosts, connected_host, mode, keyboard_send_usb_report),
            ),
            r is Ok == led_send_fits(led_view(*old(self)).serial, 102),
            final(self).rx_transfer == old(self).rx_transfer,
    {
        let s1: u8 = if get_bit8(saved_hosts, 0) { 0xff } else { 0x00 };
        let s2: u8 = if get_bit8(saved_hosts, 1) { 0xff } else { 0x00 };
        let s3: u8 = if get_bit8(saved_hosts, 2) { 0xff } else { 0x00 };
        let s4: u8 = if get_bit8(saved_hosts, 3) { 0xff } else { 0x00 };
        let c1: u8 = if connected_host == 1 { 0xff } else { 0x00 };
        let c2: u8 = if connected_host == 2 { 0xff } else { 0x00 };
        let c3: u8 = if connected_host == 3 { 0xff } else { 0x00 };
        let c4: u8 = if connected_host == 4 { 0xff } else { 0x00 };
        let cu: u8 = if connected_host == 12 { 0xff } else { 0x00 };
        let mr: u8 = if mode == BluetoothMode::Ble { 0x00 } else { 0xff };
        let mg: u8 = if mode == BluetoothMode::Unknown { 0x00 } else { 0xff };
        let um: u8 = if keyboard_send_usb_report {
            LedMode::On.to_u8()
        } else {
            LedMode::Flash.to_u8()
        };

        let mut p: Vec<u8> = build_bm_select(cu, c1, c2, c3, c4, s1, s2, s3, s4);
        let mut tail: Vec<u8> = build_bm_status(s1, s2, s3, s4, mr, mg, um);
        p.append(&mut tail);
        proof {
            assert(p@ == bluetooth_mode_payload(
                saved_hosts,
                connected_host,
                mode,
                keyboard_send_usb_report,
            ));
        }
        self.set_keys(&p)
    }

    /// Light the digit row green and Enter blue for Bluetooth PIN entry.
    pub fn bluetooth_pin_mode(&mut self) -> (r: Result<(), WouldBlock>)
        requires
            old(self).wf(),
        ensures
            final(self).wf(),
            led_view(*final(self)) == spec_led_sent(
                led_view(*old(self)),
                11,
                bluetooth_pin_payload(),
            ),
            r is Ok == led_send_fits(led_view(*old(self)).serial, 57),
            final(self).rx_transfer == old(self).rx_transfer,
    {
        let on = LedMode::On.to_u8();
        let mut p: Vec<u8> = Vec::new();
        p.push(0xca);
        p.push(11);
        push_record(&mut p, KeyIndex::N1.to_u8(), 0x00, 0xff, 0x00, on);
        push_record(&mut p, KeyIndex::N2.to_u8(), 0x00, 0xff, 0x00, on);
        push_record(&mut p, KeyIndex::N3.to_u8(), 0x00, 0xff, 0x00, on);
        push_record(&mut p, KeyIndex::N4.to_u8(), 0x00, 0xff, 0x00, on);
        push_record(&mut p, KeyIndex::N5.to_u8(), 0x00, 0xff, 0x00, on);
        push_record(&mut p, KeyIndex::N6.to_u8(), 0x00, 0xff, 0x00, on);
        push_record(&mut p, KeyIndex::N7.to_u8(), 0x00, 0xff, 0x00, on);
        push_record(&mut p, KeyIndex::N8.to_u8(), 0x00, 0xff, 0x00, on);
        push_record(&mut p, KeyIndex::N9.to_u8(), 0x00, 0xff, 0x00, on);
        push_record(&mut p, KeyIndex::N0.to_u8(), 0x00, 0xff, 0x00, on);
        push_record(&mut p, KeyIndex::Enter.to_u8(), 0x00, 0x00, 0xff, on);
        proof {
            assert(p@ =~= bluetooth_pin_payload());
        }
        self.set_keys(&p)
    }

    /// The controller's replies are benign acknowledgements (theme mode,
    /// config, overlay); they carry no state and are discarded.
    pub fn handle_message(&mut self, message: &Message)
        ensures
            *final(self) == *old(self),
    {
        match message.msg_type {
            MsgType::Led => {
                match LedOp::from_u8(message.operation) {
                    Some(LedOp::AckThemeMode) => {
                        // data: [theme id]
                    },
                    Some(LedOp::AckConfigCmd) => {
                        // data: [theme id, brightness, animation speed]
                    },
                    Some(LedOp::AckSetIndividualKeys) => {
                        // data: [0xCA]
                    },
                    _ => {
                        // unknown operation: discard, do not reply
                    },
                }
            },
            _ => {
                // unknown message kind: discard, do not reply
            },
        }
    }

    /// Advance the in-flight receive.  Without a completion nothing moves.
    /// A header completion reads the length byte and arms the body stage;
    /// a body completion consumes the frame (the controller's replies are
    /// all discarded) and re-arms a fresh header receive with the same
    /// buffer.  The transmit side and the driver state are untouched.
    pub fn poll(&mut self)
        requires
            old(self).wf(),
        ensures
            final(self).wf(),
            final(self).power == old(self).power,
            final(self).state == old(self).state,
            final(self).serial.send_buffer@ == old(self).serial.send_buffer@,
            final(self).serial.send_buffer_pos == old(self).serial.send_buffer_pos,
            final(self).serial.usart.tx_ready() == old(self).serial.usart.tx_ready(),
            final(self).serial.usart.wire() == old(self).serial.usart.wire(),
            final(self).rx_transfer is Some,
            !old(self).serial.usart.rx_pending() ==> *final(self) == *old(self),
            ({
                let tr = old(self).rx_transfer->Some_0;
                old(self).serial.usart.rx_pending() && tr.stage == ReceiveStage::Header ==> {
                    let filled = overlay(tr.buffer@, 0, old(self).serial.usart.rx_data());
                    &&& !final(self).serial.usart.rx_pending()
                    &&& final(self).serial.usart.rx_armed_len() == filled[1]
                    &&& (final(self).rx_transfer matches Some(t2) && t2.stage
                        == ReceiveStage::Body && t2.buffer@ == filled)
                }
            }),
            ({
                let tr = old(self).rx_transfer->Some_0;
                old(self).serial.usart.rx_pending() && tr.stage == ReceiveStage::Body ==> {
                    &&& !final(self).serial.usart.rx_pending()
                    &&& final(self).serial.usart.rx_armed_len() == HEADER_SIZE
                    &&& (final(self).rx_transfer matches Some(t2) && t2.stage
                        == ReceiveStage::Header)
                }
            }),
    {
        let mut transfer = self.rx_transfer.take().unwrap();
        let r = transfer.poll(&mut self.serial.usart);
        match r {
            Err(_) => {
                self.rx_transfer = Some(transfer);
            },
            Ok(()) => {
                let buffer = transfer.finish();
                match Message::parse(&buffer) {
                    Some(m) => self.handle_message(&m),
                    None => {
                        // unknown message kind or empty length: discard
                    },
                }
                self.rx_transfer = Some(self.serial.receive(buffer));
            },
        }
    }
}

/// Build the first half of the status overlay payload.
fn build_bm_select(cu: u8, c1: u8, c2: u8, c3: u8, c4: u8, s1: u8, s2: u8, s3: u8, s4: u8) -> (v:
    Vec<u8>)
    ensures
        v@ == bm_select_records(cu, c1, c2, c3, c4, s1, s2, s3, s4),
{
    let on = LedMode::On.to_u8();
    let mut v: Vec<u8> = Vec::new();
    v.push(0xca);
    v.push(20);
    proof {
        assert(v@ =~= seq![0xcau8, 20u8]);
    }
    push_record(&mut v, KeyIndex::Escape.to_u8(), 0xff, 0xff, 0x00, on);
    push_record(&mut v, KeyIndex::N1.to_u8(), cu, 0xff, c1, on);
    push_record(&mut v, KeyIndex::N2.to_u8(), cu, 0xff, c2, on);
    push_record(&mut v, KeyIndex::N3.to_u8(), cu, 0xff, c3, on);
    push_record(&mut v, KeyIndex::N4.to_u8(), cu, 0xff, c4, on);
    push_record(&mut v, KeyIndex::Q.to_u8(), 0x00, s1, 0xff, on);
    push_record(&mut v, KeyIndex::W.to_u8(), 0x00, s2, 0xff, on);
    push_record(&mut v, KeyIndex::E.to_u8(), 0x00, s3, 0xff, on);
    push_record(&mut v, KeyIndex::R.to_u8(), 0x00, s4, 0xff, on);
    v
}

/// Build the second half of the status overlay payload.
fn build_bm_status(s1: u8, s2: u8, s3: u8, s4: u8, mr: u8, mg: u8, um: u8) -> (v: Vec<u8>)
    ensures
        v@ == bm_status_records(s1, s2, s3, s4, mr, mg, um),
{
    let on = LedMode::On.to_u8();
    let mut v: Vec<u8> = Vec::new();
    push_record(&mut v, KeyIndex::A.to_u8(), s1, 0x00, 0x00, on);
    proof {
        assert(v@ =~= rec(key_index_value(KeyIndex::A), s1, 0x00, 0x00, on));
    }
    push_record(&mut v, KeyIndex::S.to_u8(), s2, 0x00, 0x00, on);
    push_record(&mut v, KeyIndex::D.to_u8(), s3, 0x00, 0x00, on);
    push_record(&mut v, KeyIndex::F.to_u8(), s4, 0x00, 0x00, on);
    push_record(&mut v, KeyIndex::LCtrl.to_u8(), 0xff, 0xff, 0xff, on);
    push_record(&mut v, KeyIndex::Equal.to_u8(), 0x00, 0xff, 0x00, on);
    push_record(&mut v, KeyIndex::BSpace.to_u8(), 0x00, 0x00, 0xff, on);
    push_record(&mut v, KeyIndex::B.to_u8(), 0x00, 0xff, 0x00, LedMode::Flash.to_u8());
    push_record(&mut v, KeyIndex::Minus.to_u8(), 0xff, 0x00, 0x00, on);
    push_record(&mut v, KeyIndex::N0.to_u8(), mr, mg, 0x00, on);
    push_record(&mut v, KeyIndex::N5.to_u8(), 0xff, 0xff, 0xff, um);
    v
}

/// Append one overlay record.
fn push_record(p: &mut Vec<u8>, k: u8, r: u8, g: u8, b: u8, m: u8)
    ensures
        final(p)@ == old(p)@ + rec(k, r, g, b, m),
{
    p.push(k);
    p.push(r);
    p.push(g);
    p.push(b);
    p.push(m);
    proof {
        assert(final(p)@ =~= old(p)@ + rec(k, r, g, b, m));
    }
}

/// A one-byte payload.
pub(crate) fn vec_one(a: u8) -> (v: Vec<u8>)
    ensures
        v@ =~= seq![a],
{
    let mut v: Vec<u8> = Vec::new();
    v.push(a);
    v
}

/// A three-byte payload.
pub(crate) fn vec_three(a: u8, b: u8, c: u8) -> (v: Vec<u8>)
    ensures
        v@ =~= seq![a, b, c],
{
    let mut v: Vec<u8> = Vec::new();
    v.push(a);
    v.push(b);
    v.push(c);
    proof {
        assert(v@ =~= seq![a, b, c]);
    }
    v
}

/// One key action aimed at the LED subsystem, applied to the driver.
pub open spec fn spec_led_action_step(v: LedView, a: crate::action::Action) -> LedView {
    match a {
        crate::action::Action::LedOn => LedView { power: true, state: true, ..v },
        crate::action::Action::LedOff => LedView { power: false, state: false, ..v },
        crate::action::Action::LedToggle => spec_led_toggle(v),
        crate::action::Action::LedNextTheme => spec_led_sent(v, 5, seq![1u8, 0u8, 0u8]),
        crate::action::Action::LedNextBrightness => spec_led_sent(v, 5, seq![0u8, 0u8, 1u8]),
        crate::action::Action::LedNextAnimationSpeed => spec_led_sent(v, 5, seq![0u8, 1u8, 0u8]),
        crate::action::Action::LedTheme(theme) => spec_led_sent(v, 1, seq![theme]),
        _ => v,
    }
}

impl Led {
    /// Dispatch one key action: LED actions fire on the press edge only,
    /// and a refused frame is dropped (the layer state persists, so the
    /// user can press again).
    pub fn process(&mut self, action: &crate::action::Action, pressed: bool, changed: bool)
        requires
            old(self).wf(),
        ensures
            final(self).wf(),
            final(self).rx_transfer == old(self).rx_transfer,
            led_view(*final(self)) == if changed && pressed {
                spec_led_action_step(led_view(*old(self)), *action)
            } else {
                led_view(*old(self))
            },
    {
        if changed && pressed {
            let _ = match *action {
                crate::action::Action::LedOn => self.on(),
                crate::action::Action::LedOff => self.off(),
                crate::action::Action::LedToggle => self.toggle(),
                crate::action::Action::LedNextTheme => self.next_theme(),
                crate::action::Action::LedNextBrightness => self.next_brightness(),
                crate::action::Action::LedNextAnimationSpeed => self.next_animation_speed(),
                crate::action::Action::LedTheme(theme) => self.set_theme(theme),
                _ => Ok(()),
            };
        }
        proof {
            if !(changed && pressed) {
                assert(led_view(*final(self)) =~= led_view(*old(self)));
            } else {
                if !(*action matches crate::action::Action::LedOn || *action
                    matches crate::action::Action::LedOff || *action
                    matches crate::action::Action::LedToggle || *action
                    matches crate::action::Action::LedNextTheme || *action
                    matches crate::action::Action::LedNextBrightness || *action
                    matches crate::action::Action::LedNextAnimationSpeed || *action
                    matches crate::action::Action::LedTheme(_)) {
                    assert(led_view(*final(self)) =~= led_view(*old(self)));
                }
            }
        }
    }
}

} // verus!
