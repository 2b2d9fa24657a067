//! High-level driver for the companion Bluetooth MCU.
//!
//! Owns the Bluetooth serial link and the in-flight receive, tracks the
//! link mode and the saved/connected host slots, and handles the messages
//! the module sends back — including the wakeup acknowledgement that
//! releases staged transmit bytes (no Bluetooth byte reaches the wire
//! before it).

use vstd::prelude::*;
use crate::bits::{u8_bit, u8_set_bit};
use crate::hidreport::HidReport;
use crate::keyboard::Keyboard;
use crate::led::{Led, LedView, led_view, spec_led_sent, bluetooth_mode_payload, bluetooth_pin_payload};
use crate::protocol::{
    BleOp, KeyboardOp, Message, MsgType, SystemOp, spec_system_op_from, spec_ble_op_from,
    spec_led_op_from, spec_parse,
};
use crate::serial::{
    DmaUsart, ReceiveStage, Serial, Transfer, WouldBlock, overlay, send_result, HEADER_SIZE,
    RX_BUFFER_SIZE,
};
use crate::serial::bluetooth_usart::{BluetoothUsart, BtUsartView, spec_bt_send};

verus! {

/// The link mode last reported by the Bluetooth module.
#[derive(Copy, Clone, PartialEq, Eq, Structural, Debug)]
pub enum BluetoothMode {
    Unknown,
    Legacy,
    Ble,
}

/// Observable state of the Bluetooth serial link.
#[verifier::ext_equal]
pub ghost struct BtSerialView {
    pub usart: BtUsartView,
    pub send_buffer: Seq<u8>,
    pub send_buffer_pos: int,
}

pub open spec fn bt_serial_view(s: Serial<BluetoothUsart>) -> BtSerialView {
    BtSerialView {
        usart: s.usart@,
        send_buffer: s.send_buffer@,
        send_buffer_pos: s.send_buffer_pos as int,
    }
}

/// Whether a frame of `n` payload bytes would be accepted now: the engine
/// is idle, or bytes are staged awaiting the wakeup acknowledgement.
pub open spec fn bt_send_fits(v: BtSerialView, n: int) -> bool {
    &&& (!v.usart.tx_busy || v.usart.staged.len() > 0)
    &&& v.send_buffer_pos + 3 + n <= v.send_buffer.len()
}

/// `Serial::send` on the Bluetooth link, as a function of the view: append
/// the frame at the cursor and stage the whole batched prefix, or change
/// nothing.
pub open spec fn spec_bt_serial_send(
    v: BtSerialView,
    t: MsgType,
    op: u8,
    data: Seq<u8>,
) -> BtSerialView {
    if bt_send_fits(v, data.len() as int) {
        let buf = overlay(v.send_buffer, v.send_buffer_pos, crate::serial::frame_bytes(t, op, data));
        let pos = v.send_buffer_pos + 3 + data.len();
        BtSerialView {
            usart: spec_bt_send(v.usart, buf.take(pos)),
            send_buffer: buf,
            send_buffer_pos: pos,
        }
    } else {
        v
    }
}

/// `send_result` on the Bluetooth link determines the view transition.
pub proof fn lemma_bt_send_view(
    pre: Serial<BluetoothUsart>,
    post: Serial<BluetoothUsart>,
    t: MsgType,
    op: u8,
    data: Seq<u8>,
    ok: bool,
)
    requires
        send_result(pre, post, t, op, data, ok),
    ensures
        bt_serial_view(post) == spec_bt_serial_send(bt_serial_view(pre), t, op, data),
        ok == bt_send_fits(bt_serial_view(pre), data.len() as int),
{
    if ok {
        assert(bt_serial_view(post) =~= spec_bt_serial_send(bt_serial_view(pre), t, op, data));
    } else {
        assert(bt_serial_view(post) =~= bt_serial_view(pre));
    }
}

/// Observable driver state that key actions act on.
#[verifier::ext_equal]
pub ghost struct BluetoothView {
    pub serial: BtSerialView,
    pub mode: BluetoothMode,
    pub saved_hosts: u8,
    pub connected_host: u8,
}

/// The driver for the Bluetooth companion MCU.
pub struct Bluetooth {
    pub serial: Serial<BluetoothUsart>,
    pub rx_transfer: Option<Transfer>,
    pub mode: BluetoothMode,
    /// Bit `i` set: host slot `i + 1` is provisioned on the module.
    pub saved_hosts: u8,
    /// 0 = disconnected, 1..=4 = that slot, 12 = connected but not saved.
    pub connected_host: u8,
}

pub open spec fn bt_view(b: Bluetooth) -> BluetoothView {
    BluetoothView {
        serial: bt_serial_view(b.serial),
        mode: b.mode,
        saved_hosts: b.saved_hosts,
        connected_host: b.connected_host,
    }
}

/// One Bluetooth command frame, at the view level.
pub open spec fn spec_bt_sent(v: BluetoothView, t: MsgType, op: u8, data: Seq<u8>) -> BluetoothView {
    BluetoothView { serial: spec_bt_serial_send(v.serial, t, op, data), ..v }
}

/// One key action aimed at the Bluetooth subsystem, applied to the driver.
pub open spec fn spec_bt_action_step(v: BluetoothView, a: crate::action::Action) -> BluetoothView {
    match a {
        crate::action::Action::BtOn => spec_bt_sent(v, MsgType::Ble, 1, Seq::<u8>::empty()),
        crate::action::Action::BtOff => spec_bt_sent(v, MsgType::Ble, 2, Seq::<u8>::empty()),
        crate::action::Action::BtSaveHost(host) => spec_bt_sent(v, MsgType::Ble, 3, seq![host]),
        crate::action::Action::BtConnectHost(host) => spec_bt_sent(v, MsgType::Ble, 4, seq![host]),
        crate::action::Action::BtDeleteHost(host) => spec_bt_sent(v, MsgType::Ble, 5, seq![host]),
        crate::action::Action::BtBroadcast => spec_bt_sent(v, MsgType::Ble, 7, Seq::<u8>::empty()),
        crate::action::Action::BtLegacyMode(enabled) => spec_bt_sent(
            v,
            MsgType::Ble,
            12,
            seq![if enabled { 1u8 } else { 0u8 }],
        ),
        crate::action::Action::BtToggleLegacyMode => spec_bt_sent(
            v,
            MsgType::Ble,
            12,
            seq![if v.mode == BluetoothMode::Ble { 1u8 } else { 0u8 }],
        ),
        crate::action::Action::BtHostListQuery => spec_bt_sent(
            v,
            MsgType::Ble,
            6,
            Seq::<u8>::empty(),
        ),
        _ => v,
    }
}

/// Wakeup-window batching: a send accepted by the Bluetooth link leaves
/// the link ready for the next frame, so every frame queued while the
/// module wakes up lands in the same staged burst — and none of them puts
/// a byte on the wire before the acknowledgement.
pub proof fn lemma_wakeup_window_batches(v: BtSerialView, t: MsgType, op: u8, data: Seq<u8>)
    requires
        0 <= v.send_buffer_pos,
        bt_send_fits(v, data.len() as int),
    ensures
        ({
            let w = spec_bt_serial_send(v, t, op, data);
            &&& w.usart.wire == v.usart.wire
            &&& w.usart.staged.len() > 0
            &&& forall|n: int|
                0 <= n && w.send_buffer_pos + 3 + n <= w.send_buffer.len() ==> bt_send_fits(w, n)
        }),
{
    let buf = overlay(
        v.send_buffer,
        v.send_buffer_pos,
        crate::serial::frame_bytes(t, op, data),
    );
    let pos = v.send_buffer_pos + 3 + data.len();
    assert(buf.len() == v.send_buffer.len());
    assert(buf.take(pos as int).len() == pos);
}

/// First reply packet to `System.GetId`: block 0 of the device identity
/// (device type 1 = keyboard, model 2 = Anne Pro, first id bytes).
pub open spec fn get_id_block0() -> Seq<u8> {
    seq![10u8, 2u8, 0u8, 1u8, 2u8, 1u8, 2u8, 3u8, 4u8, 5u8, 6u8]
}

/// Second reply packet to `System.GetId`: block 1 with the remaining id
/// bytes.
pub open spec fn get_id_block1() -> Seq<u8> {
    seq![8u8, 2u8, 1u8, 7u8, 8u8, 9u8, 10u8, 11u8, 12u8]
}

/// The serial-side effect of handling one message: the `System` family is
/// answered (identity blocks, sync-code acks); everything else sends
/// nothing from inside the handler.
pub open spec fn spec_bt_handle_sends(v: BtSerialView, t: MsgType, op: u8, data: Seq<u8>) -> BtSerialView {
    if t == MsgType::System {
        if spec_system_op_from(op) == Some(SystemOp::GetId) {
            spec_bt_serial_send(
                spec_bt_serial_send(v, MsgType::System, 129, get_id_block0()),
                MsgType::System,
                129,
                get_id_block1(),
            )
        } else if spec_system_op_from(op) == Some(SystemOp::IsSyncCode) {
            spec_bt_serial_send(v, MsgType::System, 136, seq![1u8])
        } else if spec_system_op_from(op) == Some(SystemOp::SetSyncCode) {
            spec_bt_serial_send(v, MsgType::System, 136, Seq::<u8>::empty())
        } else {
            v
        }
    } else {
        v
    }
}

/// How `Ble.AckHostListQuery` updates the tracked host state: with a
/// three-byte payload it is `[saved slots, connected slot, mode]`
/// (0 = BLE, 1 = legacy, anything else unknown); otherwise nothing changes.
pub open spec fn spec_bt_handle_hosts(
    mode: BluetoothMode,
    saved: u8,
    connected: u8,
    t: MsgType,
    op: u8,
    data: Seq<u8>,
) -> (BluetoothMode, u8, u8) {
    if t == MsgType::Ble && spec_ble_op_from(op) == Some(BleOp::AckHostListQuery) && data.len()
        == 3 {
        (
            if data[2] == 0 {
                BluetoothMode::Ble
            } else if data[2] == 1 {
                BluetoothMode::Legacy
            } else {
                BluetoothMode::Unknown
            },
            data[0],
            data[1],
        )
    } else {
        (mode, saved, connected)
    }
}

/// The LED-side effect of handling one message: `Ble.Pair` paints the PIN
/// overlay, `Ble.AckHostListQuery` repaints the status overlay when the
/// Bluetooth layer is active, and `Led.ThemeMode` forwards a theme id.
pub open spec fn spec_bt_handle_led(
    lv: LedView,
    new_mode: BluetoothMode,
    new_saved: u8,
    new_connected: u8,
    usb_report: bool,
    bt_layer_enabled: bool,
    t: MsgType,
    op: u8,
    data: Seq<u8>,
) -> LedView {
    if t == MsgType::Ble && spec_ble_op_from(op) == Some(BleOp::Pair) {
        spec_led_sent(lv, 11, bluetooth_pin_payload())
    } else if t == MsgType::Ble && spec_ble_op_from(op) == Some(BleOp::AckHostListQuery)
        && bt_layer_enabled {
        spec_led_sent(
            lv,
            11,
            bluetooth_mode_payload(new_saved, new_connected, new_mode, usb_report),
        )
    } else if t == MsgType::Led && spec_led_op_from(op) == Some(crate::protocol::LedOp::ThemeMode)
        && data.len() >= 1 {
        spec_led_sent(lv, 1, seq![data[0]])
    } else {
        lv
    }
}

/// The keyboard-side effect of handling one message: `Ble.Pair` drops the
/// Bluetooth layer from the active set so typed PIN digits reach the host.
pub open spec fn spec_bt_handle_kb_current(cur: u8, t: MsgType, op: u8) -> u8 {
    if t == MsgType::Ble && spec_ble_op_from(op) == Some(BleOp::Pair) {
        u8_set_bit(cur, 3, false)
    } else {
        cur
    }
}

impl Bluetooth {
    pub open spec fn wf(self) -> bool {
        &&& self.serial.wf()
        &&& self.rx_transfer matches Some(t) && t.wf()
    }

    /// Bind the serial link to its receive buffer and start listening:
    /// a header receive is armed at once, and the transmitter is as the
    /// serial link left it.
    pub fn new(serial: Serial<BluetoothUsart>, rx_buffer: Vec<u8>) -> (b: Bluetooth)
        requires
            serial.wf(),
            rx_buffer@.len() >= RX_BUFFER_SIZE,
        ensures
            b.wf(),
            bt_view(b).serial.send_buffer == serial.send_buffer@,
            bt_view(b).serial.send_buffer_pos == serial.send_buffer_pos as int,
            bt_view(b).serial.usart.wire == serial.usart@.wire,
            bt_view(b).serial.usart.staged == serial.usart@.staged,
            b.serial.usart.rx_armed_len() == HEADER_SIZE,
            !b.serial.usart.rx_pending(),
            b.serial.usart.tx_ready() == serial.usart.tx_ready(),
            b.rx_transfer matches Some(t) && t.stage == ReceiveStage::Header && t.buffer@
                == rx_buffer@,
            b.mode == BluetoothMode::Unknown,
            b.saved_hosts == 0,
            b.connected_host == 0,
    {
        let mut serial = serial;
        let rx_transfer = serial.receive(rx_buffer);
        Bluetooth {
            serial,
            rx_transfer: Some(rx_transfer),
            mode: BluetoothMode::Unknown,
            saved_hosts: 0,
            connected_host: 0,
        }
    }

    /// Switch the module on.
    pub fn on(&mut self) -> (r: Result<(), WouldBlock>)
        requires
            old(self).wf(),
        ensures
            final(self).wf(),
            bt_view(*final(self)) == spec_bt_sent(
                bt_view(*old(self)),
                MsgType::Ble,
                1,
                Seq::<u8>::empty(),
            ),
            r is Ok == bt_send_fits(bt_view(*old(self)).serial, 0),
            final(self).rx_transfer == old(self).rx_transfer,
    {
        let data: Vec<u8> = Vec::new();
        let r = self.serial.send(MsgType::Ble, BleOp::On.to_u8(), &data);
        proof {
            lemma_bt_send_view(old(self).serial, final(self).serial, MsgType::Ble, 1, data@, r is Ok);
            assert(bt_view(*final(self)) =~= spec_bt_sent(bt_view(*old(self)), MsgType::Ble, 1, data@));
        }
        r
    }

    /// Switch the module off.
    pub fn off(&mut self) -> (r: Result<(), WouldBlock>)
        requires
            old(self).wf(),
        ensures
            final(self).wf(),
            bt_view(*final(self)) == spec_bt_sent(
                bt_view(*old(self)),
                MsgType::Ble,
                2,
                Seq::<u8>::empty(),
            ),
            r is Ok == bt_send_fits(bt_view(*old(self)).serial, 0),
            final(self).rx_transfer == old(self).rx_transfer,
    {
        let data: Vec<u8> = Vec::new();
        let r = self.serial.send(MsgType::Ble, BleOp::Off.to_u8(), &data);
        proof {
            lemma_bt_send_view(old(self).serial, final(self).serial, MsgType::Ble, 2, data@, r is Ok);
            assert(bt_view(*final(self)) =~= spec_bt_sent(bt_view(*old(self)), MsgType::Ble, 2, data@));
        }
        r
    }

    /// Save the current host into a slot.
    pub fn save_host(&mut self, host: u8) -> (r: Result<(), WouldBlock>)
        requires
            old(self).wf(),
        ensures
            final(self).wf(),
            bt_view(*final(self)) == spec_bt_sent(bt_view(*old(self)), MsgType::Ble, 3, seq![host]),
            r is Ok == bt_send_fits(bt_view(*old(self)).serial, 1),
            final(self).rx_transfer == old(self).rx_transfer,
    {
        let data: Vec<u8> = crate::led::vec_one(host);
        let r = self.serial.send(MsgType::Ble, BleOp::SaveHost.to_u8(), &data);
        proof {
            lemma_bt_send_view(old(self).serial, final(self).serial, MsgType::Ble, 3, data@, r is Ok);
            assert(bt_view(*final(self)) =~= spec_bt_sent(bt_view(*old(self)), MsgType::Ble, 3, data@));
        }
        r
    }

    /// Connect to a saved host slot.
    pub fn connect_host(&mut self, host: u8) -> (r: Result<(), WouldBlock>)
        requires
            old(self).wf(),
        ensures
            final(self).wf(),
            bt_view(*final(self)) == spec_bt_sent(bt_view(*old(self)), MsgType::Ble, 4, seq![host]),
            r is Ok == bt_send_fits(bt_view(*old(self)).serial, 1),
            final(self).rx_transfer == old(self).rx_transfer,
    {
        let data: Vec<u8> = crate::led::vec_one(host);
        let r = self.serial.send(MsgType::Ble, BleOp::ConnectHost.to_u8(), &data);
        proof {
            lemma_bt_send_view(old(self).serial, final(self).serial, MsgType::Ble, 4, data@, r is Ok);
            assert(bt_view(*final(self)) =~= spec_bt_sent(bt_view(*old(self)), MsgType::Ble, 4, data@));
        }
        r
    }

    /// Delete a saved host slot.
    pub fn delete_host(&mut self, host: u8) -> (r: Result<(), WouldBlock>)
        requires
            old(self).wf(),
        ensures
            final(self).wf(),
            bt_view(*final(self)) == spec_bt_sent(bt_view(*old(self)), MsgType::Ble, 5, seq![host]),
            r is Ok == bt_send_fits(bt_view(*old(self)).serial, 1),
            final(self).rx_transfer == old(self).rx_transfer,
    {
        let data: Vec<u8> = crate::led::vec_one(host);
        let r = self.serial.send(MsgType::Ble, BleOp::DeleteHost.to_u8(), &data);
        proof {
            lemma_bt_send_view(old(self).serial, final(self).serial, MsgType::Ble, 5, data@, r is Ok);
            assert(bt_view(*final(self)) =~= spec_bt_sent(bt_view(*old(self)), MsgType::Ble, 5, data@));
        }
        r
    }

    /// Broadcast for pairing.
    pub fn broadcast(&mut self) -> (r: Result<(), WouldBlock>)
        requires
            old(self).wf(),
        ensures
            final(self).wf(),
            bt_view(*final(self)) == spec_bt_sent(
                bt_view(*old(self)),
                MsgType::Ble,
                7,
                Seq::<u8>::empty(),
            ),
            r is Ok == bt_send_fits(bt_view(*old(self)).serial, 0),
            final(self).rx_transfer == old(self).rx_transfer,
    {
        let data: Vec<u8> = Vec::new();
        let r = self.serial.send(MsgType::Ble, BleOp::Broadcast.to_u8(), &data);
        proof {
            lemma_bt_send_view(old(self).serial, final(self).serial, MsgType::Ble, 7, data@, r is Ok);
            assert(bt_view(*final(self)) =~= spec_bt_sent(bt_view(*old(self)), MsgType::Ble, 7, data@));
        }
        r
    }

    /// Ask the module for legacy (1) or BLE (0) link mode.
    pub fn enable_legacy_mode(&mut self, enabled: bool) -> (r: Result<(), WouldBlock>)
        requires
            old(self).wf(),
        ensures
            final(self).wf(),
            bt_view(*final(self)) == spec_bt_sent(
                bt_view(*old(self)),
                MsgType::Ble,
                12,
                seq![if enabled { 1u8 } else { 0u8 }],
            ),
            r is Ok == bt_send_fits(bt_view(*old(self)).serial, 1),
            final(self).rx_transfer == old(self).rx_transfer,
    {
        let on: u8 = if enabled {
            1
        } else {
            0
        };
        let data: Vec<u8> = crate::led::vec_one(on);
        let r = self.serial.send(MsgType::Ble, BleOp::LegacyMode.to_u8(), &data);
        proof {
            lemma_bt_send_view(old(self).serial, final(self).serial, MsgType::Ble, 12, data@, r is Ok);
            assert(bt_view(*final(self)) =~= spec_bt_sent(bt_view(*old(self)), MsgType::Ble, 12, data@));
        }
        r
    }

    /// Flip the link mode: ask for legacy exactly when the module reported
    /// BLE.
    pub fn toggle_legacy_mode(&mut self) -> (r: Result<(), WouldBlock>)
        requires
            old(self).wf(),
        ensures
            final(self).wf(),
            bt_view(*final(self)) == spec_bt_action_step(
                bt_view(*old(self)),
                crate::action::Action::BtToggleLegacyMode,
            ),
            r is Ok == bt_send_fits(bt_view(*old(self)).serial, 1),
            final(self).rx_transfer == old(self).rx_transfer,
    {
        let enabled: bool = self.mode == BluetoothMode::Ble;
        self.enable_legacy_mode(enabled)
    }

    /// Ask for the saved/connected host list.
    pub fn host_list_query(&mut self) -> (r: Result<(), WouldBlock>)
        requires
            old(self).wf(),
        ensures
            final(self).wf(),
            bt_view(*final(self)) == spec_bt_sent(
                bt_view(*old(self)),
                MsgType::Ble,
                6,
                Seq::<u8>::empty(),
            ),
            r is Ok == bt_send_fits(bt_view(*old(self)).serial, 0),
            final(self).rx_transfer == old(self).rx_transfer,
    {
        let data: Vec<u8> = Vec::new();
        let r = self.serial.send(MsgType::Ble, BleOp::HostListQuery.to_u8(), &data);
        proof {
            lemma_bt_send_view(old(self).serial, final(self).serial, MsgType::Ble, 6, data@, r is Ok);
            assert(bt_view(*final(self)) =~= spec_bt_sent(bt_view(*old(self)), MsgType::Ble, 6, data@));
        }
        r
    }

    /// The hot path: one HID report frame per scan tick.
    pub fn send_report(&mut self, report: &HidReport) -> (r: Result<(), WouldBlock>)
        requires
            old(self).wf(),
            report.wf(),
        ensures
            final(self).wf(),
            bt_view(*final(self)) == spec_bt_sent(
                bt_view(*old(self)),
                MsgType::Keyboard,
                1,
                report.spec_bytes(),
            ),
            r is Ok == bt_send_fits(bt_view(*old(self)).serial, 8),
            final(self).rx_transfer == old(self).rx_transfer,
    {
        let data = report.to_bytes();
        let r = self.serial.send(MsgType::Keyboard, KeyboardOp::KeyReport.to_u8(), &data);
        proof {
            lemma_bt_send_view(
                old(self).serial,
                final(self).serial,
                MsgType::Keyboard,
                1,
                data@,
                r is Ok,
            );
            assert(bt_view(*final(self)) =~= spec_bt_sent(
                bt_view(*old(self)),
                MsgType::Keyboard,
                1,
                data@,
            ));
        }
        r
    }

    /// Paint the Bluetooth status overlay from the tracked host state.
    pub fn update_led(&self, led: &mut Led, keyboard_send_usb_report: bool) -> (r: Result<
        (),
        WouldBlock,
    >)
        requires
            self.serial.wf(),
            old(led).wf(),
        ensures
            final(led).wf(),
            led_view(*final(led)) == spec_led_sent(
                led_view(*old(led)),
                11,
                bluetooth_mode_payload(
                    self.saved_hosts,
                    self.connected_host,
                    self.mode,
                    keyboard_send_usb_report,
                ),
            ),
            r is Ok == crate::led::led_send_fits(led_view(*old(led)).serial, 102),
            final(led).rx_transfer == old(led).rx_transfer,
    {
        led.bluetooth_mode(
            self.saved_hosts,
            self.connected_host,
            self.mode,
            keyboard_send_usb_report,
        )
    }

    /// Dispatch one key action: Bluetooth actions fire on the press edge
    /// only, and a refused frame is dropped.
    pub fn process(&mut self, action: &crate::action::Action, pressed: bool, changed: bool)
        requires
            old(self).wf(),
        ensures
            final(self).wf(),
            final(self).rx_transfer == old(self).rx_transfer,
            bt_view(*final(self)) == if changed && pressed {
                spec_bt_action_step(bt_view(*old(self)), *action)
            } else {
                bt_view(*old(self))
            },
    {
        if changed && pressed {
            let _ = match *action {
                crate::action::Action::BtOn => self.on(),
                crate::action::Action::BtOff => self.off(),
                crate::action::Action::BtSaveHost(host) => self.save_host(host),
                crate::action::Action::BtConnectHost(host) => self.connect_host(host),
                crate::action::Action::BtDeleteHost(host) => self.delete_host(host),
                crate::action::Action::BtBroadcast => self.broadcast(),
                crate::action::Action::BtLegacyMode(on) => self.enable_legacy_mode(on),
                crate::action::Action::BtToggleLegacyMode => self.toggle_legacy_mode(),
                crate::action::Action::BtHostListQuery => self.host_list_query(),
                _ => Ok(()),
            };
        }
        proof {
            if !(changed && pressed) {
                assert(bt_view(*final(self)) =~= bt_view(*old(self)));
            } else {
                if !(*action matches crate::action::Action::BtOn || *action
                    matches crate::action::Action::BtOff || *action
                    matches crate::action::Action::BtSaveHost(_) || *action
                    matches crate::action::Action::BtConnectHost(_) || *action
                    matches crate::action::Action::BtDeleteHost(_) || *action
                    matches crate::action::Action::BtBroadcast || *action
                    matches crate::action::Action::BtLegacyMode(_) || *action
                    matches crate::action::Action::BtToggleLegacyMode || *action
                    matches crate::action::Action::BtHostListQuery) {
                    assert(bt_view(*final(self)) =~= bt_view(*old(self)));
                }
            }
        }
    }

    /// Dispatch one received message.
    ///
    /// `System` queries are answered with the device identity and sync-code
    /// acks.  `Ble.Pair` drops the Bluetooth layer (so typed PIN digits
    /// reach the host) and paints the PIN overlay.  `Ble.AckHostListQuery`
    /// refreshes the tracked host state and, when the Bluetooth layer is
    /// up, repaints the status overlay.  `Led.ThemeMode` forwards the theme
    /// id to the LED driver.  Everything else — including the wakeup
    /// acknowledgement, which `poll` acts on — is discarded.
    pub fn handle_message(&mut self, message: &Message, led: &mut Led, keyboard: &mut Keyboard)
        requires
            old(self).serial.wf(),
            old(led).wf(),
            old(keyboard).wf(),
        ensures
            final(self).serial.wf(),
            final(led).wf(),
            final(keyboard).wf(),
            final(self).rx_transfer == old(self).rx_transfer,
            final(led).rx_transfer == old(led).rx_transfer,
            bt_serial_view(final(self).serial) == spec_bt_handle_sends(
                bt_serial_view(old(self).serial),
                message.msg_type,
                message.operation,
                message.data@,
            ),
            (final(self).mode, final(self).saved_hosts, final(self).connected_host)
                == spec_bt_handle_hosts(
                old(self).mode,
                old(self).saved_hosts,
                old(self).connected_host,
                message.msg_type,
                message.operation,
                message.data@,
            ),
            led_view(*final(led)) == spec_bt_handle_led(
                led_view(*old(led)),
                final(self).mode,
                final(self).saved_hosts,
                final(self).connected_host,
                old(keyboard).send_usb_report,
                u8_bit(old(keyboard).layers.current, 3),
                message.msg_type,
                message.operation,
                message.data@,
            ),
            final(keyboard).layers.current == spec_bt_handle_kb_current(
                old(keyboard).layers.current,
                message.msg_type,
                message.operation,
            ),
            final(keyboard).layers.next == old(keyboard).layers.next,
            final(keyboard).send_usb_report == old(keyboard).send_usb_report,
            final(keyboard).previous_state.bytes@ == old(keyboard).previous_state.bytes@,
    {
        match message.msg_type {
            MsgType::System => {
                match SystemOp::from_u8(message.operation) {
                    Some(SystemOp::GetId) => {
                        let data1: Vec<u8> = id_block0_bytes();
                        let data2: Vec<u8> = id_block1_bytes();
                        let r1 = self.serial.send(MsgType::System, SystemOp::AckGetId.to_u8(), &data1);
                        proof {
                            lemma_bt_send_view(
                                old(self).serial,
                                self.serial,
                                MsgType::System,
                                129,
                                data1@,
                                r1 is Ok,
                            );
                        }
                        let ghost mid = self.serial;
                        let r2 = self.serial.send(MsgType::System, SystemOp::AckGetId.to_u8(), &data2);
                        proof {
                            lemma_bt_send_view(
                                mid,
                                self.serial,
                                MsgType::System,
                                129,
                                data2@,
                                r2 is Ok,
                            );
                        }
                    },
                    Some(SystemOp::IsSyncCode) => {
                        let data: Vec<u8> = crate::led::vec_one(1);
                        let r = self.serial.send(
                            MsgType::System,
                            SystemOp::AckIsSyncCode.to_u8(),
                            &data,
                        );
                        proof {
                            lemma_bt_send_view(
                                old(self).serial,
                                self.serial,
                                MsgType::System,
                                136,
                                data@,
                                r is Ok,
                            );
                        }
                    },
                    Some(SystemOp::SetSyncCode) => {
                        let data: Vec<u8> = Vec::new();
                        let r = self.serial.send(
                            MsgType::System,
                            SystemOp::AckIsSyncCode.to_u8(),
                            &data,
                        );
                        proof {
                            lemma_bt_send_view(
                                old(self).serial,
                                self.serial,
                                MsgType::System,
                                136,
                                data@,
                                r is Ok,
                            );
                        }
                    },
                    _ => {
                        // unknown system operation: discard, do not reply
                    },
                }
            },
            MsgType::Ble => {
                match BleOp::from_u8(message.operation) {
                    Some(BleOp::AckWakeup) => {
                        // the release itself happens in `poll`
                    },
                    Some(BleOp::AckOn) => {},
                    Some(BleOp::AckOff) => {},
                    Some(BleOp::AckLegacyMode) => {},
                    Some(BleOp::AckDeleteHost) => {},
                    Some(BleOp::Pair) => {
                        keyboard.disable_bluetooth_mode();
                        let _ = led.bluetooth_pin_mode();
                    },
                    Some(BleOp::Disconnect) => {},
                    Some(BleOp::AckHostListQuery) => {
                        if message.data.len() == 3 {
                            self.saved_hosts = message.data[0];
                            self.connected_host = message.data[1];
                            let m = message.data[2];
                            self.mode = if m == 0 {
                                BluetoothMode::Ble
                            } else if m == 1 {
                                BluetoothMode::Legacy
                            } else {
                                BluetoothMode::Unknown
                            };
                        }
                        if keyboard.bluetooth_mode_enabled() {
                            let _ = self.update_led(led, keyboard.send_usb_report);
                        }
                    },
                    _ => {
                        // unknown module message: discard, do not reply
                    },
                }
            },
            MsgType::Led => {
                match crate::protocol::LedOp::from_u8(message.operation) {
                    Some(crate::protocol::LedOp::ThemeMode) => {
                        if message.data.len() >= 1 {
                            let _ = led.set_theme(message.data[0]);
                        }
                    },
                    Some(crate::protocol::LedOp::GetUserStaticTheme) => {
                        // theme sync is not implemented; discard
                    },
                    _ => {},
                }
            },
            MsgType::Keyboard => {
                match KeyboardOp::from_u8(message.operation) {
                    Some(KeyboardOp::UpUserLayout) => {
                        // layout sync is not implemented; discard
                    },
                    _ => {},
                }
            },
            MsgType::Macro => {
                // macro sync is not implemented; discard
            },
            _ => {
                // unknown message kind: discard
            },
        }
    }

    /// Advance the in-flight receive.  A completed frame is parsed and
    /// dispatched; a wakeup acknowledgement additionally releases the
    /// staged transmit bytes and resets the batch cursor; then a fresh
    /// header receive is armed with the same buffer.
    pub fn poll(&mut self, led: &mut Led, keyboard: &mut Keyboard)
        requires
            old(self).wf(),
            old(led).wf(),
            old(keyboard).wf(),
        ensures
            final(self).wf(),
            final(led).wf(),
            final(keyboard).wf(),
            final(self).rx_transfer is Some,
            !old(self).serial.usart.rx_pending() ==> *final(self) == *old(self),
            ({
                let tr = old(self).rx_transfer->Some_0;
                old(self).serial.usart.rx_pending() && tr.stage == ReceiveStage::Header ==> {
                    let filled = overlay(tr.buffer@, 0, old(self).serial.usart.rx_data());
                    &&& !final(self).serial.usart.rx_pending()
                    &&& final(self).serial.usart.rx_armed_len() == filled[1]
                    &&& (final(self).rx_transfer matches Some(t2) && t2.stage
                        == ReceiveStage::Body && t2.buffer@ == filled)
                }
            }),
            ({
                let completed = old(self).rx_transfer matches Some(tr) && tr.stage
                    == ReceiveStage::Body && old(self).serial.usart.rx_pending();
                if !completed {
                    &&& *final(led) == *old(led)
                    &&& *final(keyboard) == *old(keyboard)
                    &&& final(self).mode == old(self).mode
                    &&& final(self).saved_hosts == old(self).saved_hosts
                    &&& final(self).connected_host == old(self).connected_host
                    &&& final(self).serial.send_buffer@ == old(self).serial.send_buffer@
                    &&& final(self).serial.send_buffer_pos == old(self).serial.send_buffer_pos
                    &&& final(self).serial.usart.wire() == old(self).serial.usart.wire()
                    &&& final(self).serial.usart.staged() == old(self).serial.usart.staged()
                } else {
                    let tr = old(self).rx_transfer->Some_0;
                    let filled = overlay(tr.buffer@, 2, old(self).serial.usart.rx_data());
                    &&& !final(self).serial.usart.rx_pending()
                    &&& final(self).serial.usart.rx_armed_len() == HEADER_SIZE
                    &&& (final(self).rx_transfer matches Some(t2) && t2.stage
                        == ReceiveStage::Header)
                    &&& match spec_parse(filled) {
                        Some((t, op, data)) => {
                            if t == MsgType::Ble && op == 170 {
                                &&& led_view(*final(led)) == led_view(*old(led))
                                &&& final(led).rx_transfer == old(led).rx_transfer
                                &&& final(keyboard).layers == old(keyboard).layers
                                &&& final(keyboard).send_usb_report == old(keyboard).send_usb_report
                                &&& final(keyboard).previous_state.bytes@ == old(
                                    keyboard,
                                ).previous_state.bytes@
                                &&& final(self).mode == old(self).mode
                                &&& final(self).saved_hosts == old(self).saved_hosts
                                &&& final(self).connected_host == old(self).connected_host
                                &&& final(self).serial.send_buffer@ == old(
                                    self,
                                ).serial.send_buffer@
                                &&& final(self).serial.send_buffer_pos == 0
                                &&& final(self).serial.usart.wire() == old(self).serial.usart.wire()
                                    + old(self).serial.usart.staged()
                                &&& final(self).serial.usart.staged() == Seq::<u8>::empty()
                            } else {
                                let sv1 = spec_bt_handle_sends(
                                    bt_serial_view(old(self).serial),
                                    t,
                                    op,
                                    data,
                                );
                                &&& final(self).serial.send_buffer@ == sv1.send_buffer
                                &&& final(self).serial.send_buffer_pos == sv1.send_buffer_pos
                                &&& final(self).serial.usart.wire() == sv1.usart.wire
                                &&& final(self).serial.usart.staged() == sv1.usart.staged
                                &&& (
                                final(self).mode,
                                final(self).saved_hosts,
                                final(self).connected_host,
                                ) == spec_bt_handle_hosts(
                                    old(self).mode,
                                    old(self).saved_hosts,
                                    old(self).connected_host,
                                    t,
                                    op,
                                    data,
                                )
                                &&& led_view(*final(led)) == spec_bt_handle_led(
                                    led_view(*old(led)),
                                    final(self).mode,
                                    final(self).saved_hosts,
                                    final(self).connected_host,
                                    old(keyboard).send_usb_report,
                                    u8_bit(old(keyboard).layers.current, 3),
                                    t,
                                    op,
                                    data,
                                )
                                &&& final(keyboard).layers.current == spec_bt_handle_kb_current(
                                    old(keyboard).layers.current,
                                    t,
                                    op,
                                )
                                &&& final(keyboard).layers.next == old(keyboard).layers.next
                                &&& final(keyboard).send_usb_report == old(
                                    keyboard,
                                ).send_usb_report
                                &&& final(keyboard).previous_state.bytes@ == old(
                                    keyboard,
                                ).previous_state.bytes@
                            }
                        },
                        None => {
                            &&& *final(led) == *old(led)
                            &&& *final(keyboard) == *old(keyboard)
                            &&& final(self).mode == old(self).mode
                            &&& final(self).saved_hosts == old(self).saved_hosts
                            &&& final(self).connected_host == old(self).connected_host
                            &&& final(self).serial.send_buffer@ == old(self).serial.send_buffer@
                            &&& final(self).serial.send_buffer_pos == old(
                                self,
                            ).serial.send_buffer_pos
                            &&& final(self).serial.usart.wire() == old(self).serial.usart.wire()
                            &&& final(self).serial.usart.staged() == old(self).serial.usart.staged()
                        },
                    }
                }
            }),
    {
        let mut transfer = self.rx_transfer.take().unwrap();
        let r = transfer.poll(&mut self.serial.usart);
        match r {
            Err(_) => {
                self.rx_transfer = Some(transfer);
            },
            Ok(()) => {
                let buffer = transfer.finish();
                match Message::parse(&buffer) {
                    Some(m) => {
                        let is_wakeup = m.msg_type == MsgType::Ble && m.operation == 170;
                        self.handle_message(&m, led, keyboard);
                        if is_wakeup {
                            // Wakeup acknowledged: release the staged bytes.
                            self.serial.usart.ack_wakeup();
                            self.serial.send_buffer_pos = 0;
                        }
                    },
                    None => {
                        // unknown message kind or empty length: discard
                    },
                }
                self.rx_transfer = Some(self.serial.receive(buffer));
            },
        }
    }
}

/// The first `System.AckGetId` payload as bytes.
fn id_block0_bytes() -> (v: Vec<u8>)
    ensures
        v@ =~= get_id_block0(),
{
    let mut v: Vec<u8> = Vec::new();
    v.push(10);
    v.push(2);
    v.push(0);
    v.push(1);
    v.push(2);
    v.push(1);
    v.push(2);
    v.push(3);
    v.push(4);
    v.push(5);
    v.push(6);
    proof {
        assert(v@ =~= get_id_block0());
    }
    v
}

/// The second `System.AckGetId` payload as bytes.
fn id_block1_bytes() -> (v: Vec<u8>)
    ensures
        v@ =~= get_id_block1(),
{
    let mut v: Vec<u8> = Vec::new();
    v.push(8);
    v.push(2);
    v.push(1);
    v.push(7);
    v.push(8);
    v.push(9);
    v.push(10);
    v.push(11);
    v.push(12);
    proof {
        assert(v@ =~= get_id_block1());
    }
    v
}

} // verus!
