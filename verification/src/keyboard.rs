//! The action engine: layer stack, per-key action lookup, change detection,
//! HID report assembly, and per-subsystem dispatch.

use vstd::prelude::*;
use crate::action::{Action, action_wf};
use crate::bits::{get_bit8, set_bit8, u8_bit, u8_set_bit};
use crate::bluetooth::{Bluetooth, BluetoothView, bt_view, spec_bt_action_step};
use crate::hidreport::HidReport;
use crate::keycodes::{KeyCode, key_code_value, spec_is_modifier, spec_is_normal_key};
use crate::keystate::{KeyState, KEY_COUNT};
use crate::layout::{LAYER_BT, layout_action, spec_layout_action, spec_base_action};
use crate::led::{Led, LedView, led_view, spec_led_action_step};
use crate::usb::UsbHid;

verus! {

/// Which layers are active: bit `i` of `current` makes layout `i` active
/// this tick; action processing mutates `next`, which is committed at the
/// end of the tick.
pub struct Layers {
    pub current: u8,
    pub next: u8,
}

/// How one key action rewrites the pending layer set.  `LayerMomentary`
/// follows both edges of its key; the toggle/on/off operators act on the
/// press edge only.
pub open spec fn spec_layers_step(next: u8, a: Action, pressed: bool, changed: bool) -> u8 {
    if changed {
        match a {
            Action::LayerMomentary(l) => if l < 8 {
                u8_set_bit(next, l, pressed)
            } else {
                next
            },
            Action::LayerToggle(l) => if pressed && l < 8 {
                u8_set_bit(next, l, !u8_bit(next, l))
            } else {
                next
            },
            Action::LayerOn(l) => if pressed && l < 8 {
                u8_set_bit(next, l, true)
            } else {
                next
            },
            Action::LayerOff(l) => if pressed && l < 8 {
                u8_set_bit(next, l, false)
            } else {
                next
            },
            _ => next,
        }
    } else {
        next
    }
}

impl Layers {
    /// Only the base layer active.
    pub fn new() -> (l: Layers)
        ensures
            l.current == 1,
            l.next == 1,
    {
        Layers { current: 1, next: 1 }
    }

    /// Apply one key action to the pending layer set.
    pub fn process(&mut self, action: &Action, pressed: bool, changed: bool)
        requires
            action_wf(*action),
        ensures
            final(self).current == old(self).current,
            final(self).next == spec_layers_step(old(self).next, *action, pressed, changed),
    {
        if changed {
            match *action {
                Action::LayerMomentary(layer) => {
                    self.next = set_bit8(self.next, layer, pressed);
                },
                Action::LayerToggle(layer) => {
                    if pressed {
                        let cur = get_bit8(self.next, layer);
                        self.next = set_bit8(self.next, layer, !cur);
                    }
                },
                Action::LayerOn(layer) => {
                    if pressed {
                        self.next = set_bit8(self.next, layer, true);
                    }
                },
                Action::LayerOff(layer) => {
                    if pressed {
                        self.next = set_bit8(self.next, layer, false);
                    }
                },
                _ => {},
            }
        }
    }

    /// Commit the pending layer set.
    pub fn finish(&mut self)
        ensures
            final(self).current == old(self).next,
            final(self).next == old(self).next,
    {
        self.current = self.next;
    }
}

/// Observable state of the HID assembler.
#[verifier::ext_equal]
pub ghost struct HidView {
    pub mods: u8,
    pub keys: Seq<u8>,
    pub count: int,
}

/// Assembles one HID report over a tick: a modifier bitmap and up to six
/// normal keys in key-index order; the seventh and later are dropped.
pub struct HidProcessor {
    pub report: HidReport,
    /// Number of key slots filled so far.
    pub i: usize,
}

pub open spec fn hid_view(h: HidProcessor) -> HidView {
    HidView { mods: h.report.modifiers, keys: h.report.keys@, count: h.i as int }
}

/// The empty assembler state.
pub open spec fn spec_hid_empty() -> HidView {
    HidView { mods: 0, keys: seq![0u8, 0u8, 0u8, 0u8, 0u8, 0u8], count: 0 }
}

/// How one pressed key extends the report: a modifier sets its bit
/// (`LCtrl` is bit 0), a normal key fills the next free slot, anything
/// else — or a seventh key — changes nothing.
pub open spec fn spec_hid_step(v: HidView, a: Action, pressed: bool) -> HidView {
    if pressed {
        match a {
            Action::Key(code) => {
                if spec_is_modifier(code) {
                    HidView {
                        mods: u8_set_bit(v.mods, (key_code_value(code) - 0xE0) as u8, true),
                        ..v
                    }
                } else if spec_is_normal_key(code) && v.count < 6 {
                    HidView {
                        keys: v.keys.update(v.count, key_code_value(code)),
                        count: v.count + 1,
                        ..v
                    }
                } else {
                    v
                }
            },
            _ => v,
        }
    } else {
        v
    }
}

impl HidProcessor {
    pub open spec fn wf(self) -> bool {
        &&& self.report.wf()
        &&& self.i <= 6
    }

    pub fn new() -> (h: HidProcessor)
        ensures
            h.wf(),
            hid_view(h) == spec_hid_empty(),
    {
        let h = HidProcessor { report: HidReport::new(), i: 0 };
        proof {
            assert(hid_view(h) =~= spec_hid_empty());
        }
        h
    }

    /// Fold one key action into the report.
    pub fn process(&mut self, action: &Action, pressed: bool, _changed: bool)
        requires
            old(self).wf(),
        ensures
            final(self).wf(),
            hid_view(*final(self)) == spec_hid_step(hid_view(*old(self)), *action, pressed),
    {
        if pressed {
            if let Action::Key(code) = *action {
                if code.is_modifier() {
                    let bit = code.to_u8() - 0xE0;
                    self.report.modifiers = set_bit8(self.report.modifiers, bit, true);
                } else if code.is_normal_key() && self.i < self.report.keys.len() {
                    self.report.keys[self.i] = code.to_u8();
                    self.i = self.i + 1;
                }
            }
        }
        proof {
            assert(hid_view(*final(self)) =~= spec_hid_step(
                hid_view(*old(self)),
                *action,
                pressed,
            ));
        }
    }
}

/// Modifier bit mapping: a pressed `Key(LCtrl + i)` sets exactly bit `i`
/// of the modifier bitmap and leaves the key slots alone.
pub proof fn lemma_modifier_bit(v: HidView, code: KeyCode)
    requires
        spec_is_modifier(code),
    ensures
        ({
            let i = (key_code_value(code) - 0xE0) as u8;
            let r = spec_hid_step(v, Action::Key(code), true);
            &&& u8_bit(r.mods, i)
            &&& forall|j: u8| j < 8 && j != i ==> u8_bit(r.mods, j) == u8_bit(v.mods, j)
            &&& r.keys == v.keys
            &&& r.count == v.count
        }),
{
    let i = (key_code_value(code) - 0xE0) as u8;
    crate::bits::lemma_u8_set_bit(v.mods, i, true);
}

/// Report overflow: once six key slots are filled, a further normal key
/// changes nothing — it is dropped silently, with no roll-over code.
pub proof fn lemma_report_overflow(v: HidView, code: KeyCode)
    requires
        spec_is_normal_key(code),
        v.count >= 6,
    ensures
        spec_hid_step(v, Action::Key(code), true) == v,
{
    assert(!spec_is_modifier(code));
}

/// The HID usage IDs of the pressed keys among positions `0..k` whose
/// action is a normal key, in key-index order.
pub open spec fn spec_pressed_normal_codes(state: KeyState, cur: u8, k: int) -> Seq<u8>
    decreases k,
{
    if k <= 0 {
        Seq::<u8>::empty()
    } else {
        let rest = spec_pressed_normal_codes(state, cur, k - 1);
        match spec_get_action(cur, k - 1) {
            Action::Key(code) => if state.spec_bit(k - 1) && spec_is_normal_key(code) {
                rest.push(key_code_value(code))
            } else {
                rest
            },
            _ => rest,
        }
    }
}

/// Report assembly law: over any prefix of the matrix, the report's key
/// slots hold exactly the first six pressed normal keys in key-index
/// order, the remaining slots are zero, and keys beyond the sixth are
/// dropped silently.
pub proof fn lemma_hid_fold_keys(state: KeyState, prev: KeyState, cur: u8, k: int)
    requires
        0 <= k <= KEY_COUNT,
    ensures
        ({
            let v = spec_hid_fold(state, prev, cur, k);
            let codes = spec_pressed_normal_codes(state, cur, k);
            &&& v.count == if codes.len() < 6 {
                codes.len() as int
            } else {
                6
            }
            &&& v.keys.len() == 6
            &&& forall|i: int| 0 <= i < v.count ==> v.keys[i] == codes[i]
            &&& forall|i: int| v.count <= i < 6 ==> v.keys[i] == 0
        }),
    decreases k,
{
    if k > 0 {
        lemma_hid_fold_keys(state, prev, cur, k - 1);
    }
}

/// The active action for a key: the topmost active layer with a
/// non-transparent entry decides, searched from layer `i` down.
pub open spec fn spec_get_action_from(cur: u8, key: int, i: int) -> Action
    decreases i + 1,
{
    if i < 0 {
        Action::Transparent
    } else if u8_bit(cur, i as u8) && spec_layout_action(i, key) != Action::Transparent {
        spec_layout_action(i, key)
    } else {
        spec_get_action_from(cur, key, i - 1)
    }
}

/// The active action for a key under the active layer set `cur`.
pub open spec fn spec_get_action(cur: u8, key: int) -> Action {
    spec_get_action_from(cur, key, 3)
}

/// Layer fallthrough: whenever every active non-base layer is transparent
/// at `key`, the base layer decides.
pub proof fn lemma_layer_fallthrough(cur: u8, key: int)
    requires
        0 <= key < KEY_COUNT,
        u8_bit(cur, 0),
        forall|i: int|
            1 <= i < 4 && u8_bit(cur, i as u8) ==> spec_layout_action(i, key)
                == Action::Transparent,
    ensures
        spec_get_action(cur, key) == spec_base_action(key),
{
    reveal_with_fuel(spec_get_action_from, 6);
    assert(u8_bit(cur, 3u8) ==> spec_layout_action(3, key) == Action::Transparent);
    assert(u8_bit(cur, 2u8) ==> spec_layout_action(2, key) == Action::Transparent);
    assert(u8_bit(cur, 1u8) ==> spec_layout_action(1, key) == Action::Transparent);
}

/// The report assembled from the first `k` keys of the matrix.
pub open spec fn spec_hid_fold(state: KeyState, prev: KeyState, cur: u8, k: int) -> HidView
    decreases k,
{
    if k <= 0 {
        spec_hid_empty()
    } else {
        spec_hid_step(
            spec_hid_fold(state, prev, cur, k - 1),
            spec_get_action(cur, k - 1),
            state.spec_bit(k - 1),
        )
    }
}

/// The pending layer set after the first `k` keys of the matrix.
pub open spec fn spec_layers_fold(
    state: KeyState,
    prev: KeyState,
    cur: u8,
    next0: u8,
    k: int,
) -> u8
    decreases k,
{
    if k <= 0 {
        next0
    } else {
        spec_layers_step(
            spec_layers_fold(state, prev, cur, next0, k - 1),
            spec_get_action(cur, k - 1),
            state.spec_bit(k - 1),
            state.spec_bit(k - 1) != prev.spec_bit(k - 1),
        )
    }
}

/// The LED driver after the first `k` keys of the matrix.
pub open spec fn spec_led_fold(v: LedView, state: KeyState, prev: KeyState, cur: u8, k: int) -> LedView
    decreases k,
{
    if k <= 0 {
        v
    } else {
        let w = spec_led_fold(v, state, prev, cur, k - 1);
        if state.spec_bit(k - 1) && state.spec_bit(k - 1) != prev.spec_bit(k - 1) {
            spec_led_action_step(w, spec_get_action(cur, k - 1))
        } else {
            w
        }
    }
}

/// The Bluetooth driver after the first `k` keys of the matrix.
pub open spec fn spec_bt_fold(
    v: BluetoothView,
    state: KeyState,
    prev: KeyState,
    cur: u8,
    k: int,
) -> BluetoothView
    decreases k,
{
    if k <= 0 {
        v
    } else {
        let w = spec_bt_fold(v, state, prev, cur, k - 1);
        if state.spec_bit(k - 1) && state.spec_bit(k - 1) != prev.spec_bit(k - 1) {
            spec_bt_action_step(w, spec_get_action(cur, k - 1))
        } else {
            w
        }
    }
}

/// The first key at or after `k` that fires a reset this tick, or
/// `KEY_COUNT` when none does.
pub open spec fn spec_scan_reset(state: KeyState, prev: KeyState, cur: u8, k: int) -> int
    decreases KEY_COUNT - k,
{
    if k >= KEY_COUNT {
        KEY_COUNT as int
    } else if state.spec_bit(k) && spec_get_action(cur, k) == Action::Reset {
        k
    } else {
        spec_scan_reset(state, prev, cur, k + 1)
    }
}

/// A reset scan lands between its start index and the key count.
pub proof fn lemma_scan_reset_range(state: KeyState, prev: KeyState, cur: u8, k: int)
    requires
        0 <= k <= KEY_COUNT,
    ensures
        k <= spec_scan_reset(state, prev, cur, k) <= KEY_COUNT,
    decreases KEY_COUNT - k,
{
    if k < KEY_COUNT {
        if !(state.spec_bit(k) && spec_get_action(cur, k) == Action::Reset) {
            lemma_scan_reset_range(state, prev, cur, k + 1);
        }
    }
}

/// Key actions only send frames: the tracked host fields survive any run
/// of them.
pub proof fn lemma_bt_fold_fields(
    v: BluetoothView,
    state: KeyState,
    prev: KeyState,
    cur: u8,
    k: int,
)
    ensures
        spec_bt_fold(v, state, prev, cur, k).mode == v.mode,
        spec_bt_fold(v, state, prev, cur, k).saved_hosts == v.saved_hosts,
        spec_bt_fold(v, state, prev, cur, k).connected_host == v.connected_host,
    decreases k,
{
    if k > 0 {
        lemma_bt_fold_fields(v, state, prev, cur, k - 1);
    }
}

/// The keyboard: layer state, the previous matrix sample, and whether
/// reports also go to USB.
pub struct Keyboard {
    pub layers: Layers,
    pub previous_state: KeyState,
    pub send_usb_report: bool,
}

impl Keyboard {
    pub open spec fn wf(self) -> bool {
        self.previous_state.wf()
    }

    /// Base layer active, no keys pressed, USB reports on.
    pub fn new() -> (k: Keyboard)
        ensures
            k.wf(),
            k.layers.current == 1,
            k.layers.next == 1,
            k.send_usb_report,
            forall|j: int| 0 <= j < KEY_COUNT ==> !k.previous_state.spec_bit(j),
    {
        Keyboard { layers: Layers::new(), previous_state: KeyState::new(), send_usb_report: true }
    }

    /// The topmost non-transparent action for `key` among the active
    /// layers; `Transparent` when every active layer defers.
    pub fn get_action(&self, key: usize) -> (a: Action)
        requires
            key < KEY_COUNT,
        ensures
            a == spec_get_action(self.layers.current, key as int),
            action_wf(a),
    {
        let cur = self.layers.current;
        let k = key as u8;
        let mut a = Action::Transparent;
        if get_bit8(cur, 3) {
            a = layout_action(3, k);
        }
        if a == Action::Transparent && get_bit8(cur, 2) {
            a = layout_action(2, k);
        }
        if a == Action::Transparent && get_bit8(cur, 1) {
            a = layout_action(1, k);
        }
        if a == Action::Transparent && get_bit8(cur, 0) {
            a = layout_action(0, k);
        }
        proof {
            reveal_with_fuel(spec_get_action_from, 6);
        }
        a
    }

    /// Whether the Bluetooth layer is currently active.
    pub fn bluetooth_mode_enabled(&self) -> (r: bool)
        ensures
            r == u8_bit(self.layers.current, 3),
    {
        get_bit8(self.layers.current, LAYER_BT)
    }

    /// One scan tick.
    ///
    /// A sample identical to the previous one returns at once with no
    /// effect.  Otherwise every key that is pressed or just changed is
    /// resolved through the active layers and dispatched to the HID
    /// assembler, the LED driver, the Bluetooth driver and the layer set,
    /// in key-index order.  A pressed `Reset` key stops the tick and asks
    /// the caller to reset the MCU.  At the end of a full tick the
    /// Bluetooth-layer transition repaints (or clears) the status overlay,
    /// the pending layer set is committed, the assembled report goes to
    /// the Bluetooth module (and to USB when enabled), the packed key
    /// state goes to the LED controller, and the sample becomes the new
    /// previous state.  Refused frames are dropped; the next tick retries
    /// naturally.
    pub fn process(
        &mut self,
        state: &KeyState,
        bluetooth: &mut Bluetooth,
        led: &mut Led,
        usb: &mut UsbHid,
    ) -> (reset: bool)
        requires
            old(self).wf(),
            state.wf(),
            old(bluetooth).wf(),
            old(led).wf(),
            old(usb).wf(),
        ensures
            final(self).wf(),
            final(bluetooth).wf(),
            final(led).wf(),
            final(usb).wf(),
            final(self).send_usb_report == old(self).send_usb_report,
            final(bluetooth).rx_transfer == old(bluetooth).rx_transfer,
            final(led).rx_transfer == old(led).rx_transfer,
            ({
                let prev = old(self).previous_state;
                let cur = old(self).layers.current;
                let next0 = old(self).layers.next;
                if state.bytes@ == prev.bytes@ {
                    &&& !reset
                    &&& *final(self) == *old(self)
                    &&& *final(bluetooth) == *old(bluetooth)
                    &&& *final(led) == *old(led)
                    &&& *final(usb) == *old(usb)
                } else {
                    let first = spec_scan_reset(*state, prev, cur, 0);
                    &&& reset == (first < KEY_COUNT)
                    &&& if first < KEY_COUNT {
                        &&& final(self).layers.current == cur
                        &&& final(self).layers.next == spec_layers_fold(
                            *state,
                            prev,
                            cur,
                            next0,
                            first,
                        )
                        &&& final(self).previous_state == old(self).previous_state
                        &&& led_view(*final(led)) == spec_led_fold(
                            led_view(*old(led)),
                            *state,
                            prev,
                            cur,
                            first,
                        )
                        &&& bt_view(*final(bluetooth)) == spec_bt_fold(
                            bt_view(*old(bluetooth)),
                            *state,
                            prev,
                            cur,
                            first,
                        )
                        &&& *final(usb) == *old(usb)
                    } else {
                        let hid = spec_hid_fold(*state, prev, cur, KEY_COUNT as int);
                        let report_bytes = seq![hid.mods, 0u8] + hid.keys;
                        let next1 = spec_layers_fold(*state, prev, cur, next0, KEY_COUNT as int);
                        let led1 = spec_led_fold(
                            led_view(*old(led)),
                            *state,
                            prev,
                            cur,
                            KEY_COUNT as int,
                        );
                        let led2 = if u8_bit(next1, 3) && !u8_bit(cur, 3) {
                            crate::led::spec_led_sent(
                                led1,
                                11,
                                crate::led::bluetooth_mode_payload(
                                    old(bluetooth).saved_hosts,
                                    old(bluetooth).connected_host,
                                    old(bluetooth).mode,
                                    old(self).send_usb_report,
                                ),
                            )
                        } else if u8_bit(cur, 3) && !u8_bit(next1, 3) {
                            crate::led::spec_led_theme_mode(led1)
                        } else {
                            led1
                        };
                        let led3 = crate::led::spec_led_sent(led2, 7, state.bytes@);
                        let bt1 = spec_bt_fold(
                            bt_view(*old(bluetooth)),
                            *state,
                            prev,
                            cur,
                            KEY_COUNT as int,
                        );
                        let bt2 = crate::bluetooth::spec_bt_sent(
                            bt1,
                            crate::protocol::MsgType::Keyboard,
                            1,
                            report_bytes,
                        );
                        &&& final(self).layers.current == next1
                        &&& final(self).layers.next == next1
                        &&& final(self).previous_state.bytes@ == state.bytes@
                        &&& led_view(*final(led)) == led3
                        &&& bt_view(*final(bluetooth)) == bt2
                        &&& if old(self).send_usb_report {
                            &&& final(usb).report@ == report_bytes
                            &&& final(usb).protocol == old(usb).protocol
                        } else {
                            *final(usb) == *old(usb)
                        }
                    }
                }
            }),
    {
        if state.same_as(&self.previous_state) {
            return false;
        }
        let mut hid = HidProcessor::new();
        let ghost prev = old(self).previous_state;
        let ghost cur = old(self).layers.current;
        let ghost next0 = old(self).layers.next;
        let ghost ledv0 = led_view(*old(led));
        let ghost btv0 = bt_view(*old(bluetooth));
        let mut key: usize = 0;
        proof {
            lemma_scan_reset_range(*state, prev, cur, 0);
        }
        while key < KEY_COUNT
            invariant
                key <= KEY_COUNT,
                prev == old(self).previous_state,
                cur == old(self).layers.current,
                next0 == old(self).layers.next,
                ledv0 == led_view(*old(led)),
                btv0 == bt_view(*old(bluetooth)),
                state.bytes@ != prev.bytes@,
                usb.wf(),
                state.wf(),
                prev.wf(),
                self.previous_state == prev,
                self.send_usb_report == old(self).send_usb_report,
                self.layers.current == cur,
                self.layers.next == spec_layers_fold(*state, prev, cur, next0, key as int),
                hid.wf(),
                hid_view(hid) == spec_hid_fold(*state, prev, cur, key as int),
                led.wf(),
                bluetooth.wf(),
                led_view(*led) == spec_led_fold(ledv0, *state, prev, cur, key as int),
                bt_view(*bluetooth) == spec_bt_fold(btv0, *state, prev, cur, key as int),
                led.rx_transfer == old(led).rx_transfer,
                bluetooth.rx_transfer == old(bluetooth).rx_transfer,
                *usb == *old(usb),
                spec_scan_reset(*state, prev, cur, key as int) == spec_scan_reset(
                    *state,
                    prev,
                    cur,
                    0,
                ),
                spec_scan_reset(*state, prev, cur, 0) >= key,
            decreases KEY_COUNT - key,
        {
            let pressed = state.get(key);
            let changed = self.previous_state.get(key) != pressed;
            if pressed || changed {
                let action = self.get_action(key);
                if pressed && action == Action::Reset {
                    proof {
                        assert(spec_scan_reset(*state, prev, cur, key as int) == key);
                    }
                    return true;
                }
                hid.process(&action, pressed, changed);
                led.process(&action, pressed, changed);
                bluetooth.process(&action, pressed, changed);
                self.layers.process(&action, pressed, changed);
            }
            proof {
                let k = key as int;
                assert(spec_hid_fold(*state, prev, cur, k + 1) == spec_hid_step(
                    spec_hid_fold(*state, prev, cur, k),
                    spec_get_action(cur, k),
                    state.spec_bit(k),
                ));
                assert(spec_layers_fold(*state, prev, cur, next0, k + 1) == spec_layers_step(
                    spec_layers_fold(*state, prev, cur, next0, k),
                    spec_get_action(cur, k),
                    state.spec_bit(k),
                    state.spec_bit(k) != prev.spec_bit(k),
                ));
                assert(spec_scan_reset(*state, prev, cur, k) == spec_scan_reset(
                    *state,
                    prev,
                    cur,
                    k + 1,
                ));
                lemma_scan_reset_range(*state, prev, cur, k + 1);
            }
            key = key + 1;
        }
        let bt_layer_current = self.bluetooth_mode_enabled();
        let bt_layer_next = get_bit8(self.layers.next, LAYER_BT);
        if bt_layer_next && !bt_layer_current {
            proof {
                lemma_bt_fold_fields(btv0, *state, prev, cur, KEY_COUNT as int);
            }
            let _ = bluetooth.update_led(led, self.send_usb_report);
        } else if bt_layer_current && !bt_layer_next {
            let _ = led.theme_mode();
        }
        self.layers.finish();
        let _ = bluetooth.send_report(&hid.report);
        let _ = led.send_keys(state);
        if self.send_usb_report {
            usb.update_report(&hid.report);
        }
        self.previous_state = state.duplicate();
        false
    }

    /// Drop the Bluetooth layer from the active set at once.
    pub fn disable_bluetooth_mode(&mut self)
        ensures
            final(self).layers.current == u8_set_bit(old(self).layers.current, 3, false),
            final(self).layers.next == old(self).layers.next,
            final(self).previous_state == old(self).previous_state,
            final(self).send_usb_report == old(self).send_usb_report,
    {
        self.layers.current = set_bit8(self.layers.current, LAYER_BT, false);
    }
}

} // verus!
