//! The Bluetooth-link DMA engine.
//!
//! This is an in-memory model of the engine's observable behaviour; the
//! register-level driver that realises it on the MCU lives with the hardware
//! and stays outside the verified core.  The Bluetooth module sleeps, so a
//! send does not emit anything: it stages the bytes, arms a two-byte receive
//! for the wakeup acknowledgement and raises the wake line.  Only
//! `ack_wakeup` moves staged bytes onto the wire.  Re-sending while staged
//! replaces the staged bytes, which lets the framing layer batch frames.

use vstd::prelude::*;
use crate::serial::{DmaUsart, overlay};

verus! {

/// Observable state of the Bluetooth DMA engine.
#[verifier::ext_equal]
pub ghost struct BtUsartView {
    pub rx_armed: nat,
    pub rx_pending: bool,
    pub rx_data: Seq<u8>,
    pub staged: Seq<u8>,
    pub tx_busy: bool,
    pub wire: Seq<u8>,
    pub wake_raised: bool,
}

/// What `send` does on this link: stage the bytes without emitting them;
/// when nothing was staged yet, also arm a fresh two-byte receive for the
/// wakeup acknowledgement and raise the wake line.
pub open spec fn spec_bt_send(v: BtUsartView, bytes: Seq<u8>) -> BtUsartView {
    BtUsartView {
        staged: bytes,
        rx_armed: if v.staged.len() == 0 {
            2
        } else {
            v.rx_armed
        },
        rx_pending: if v.staged.len() == 0 {
            false
        } else {
            v.rx_pending
        },
        wake_raised: if v.staged.len() == 0 {
            true
        } else {
            v.wake_raised
        },
        ..v
    }
}

/// The Bluetooth UART with its DMA channels.
pub struct BluetoothUsart {
    pub rx_armed: u16,
    pub rx_pending_flag: bool,
    pub rx_buf: Vec<u8>,
    pub staged_buf: Vec<u8>,
    pub tx_busy: bool,
    pub wire_log: Vec<u8>,
    pub wake_raised: bool,
}

impl View for BluetoothUsart {
    type V = BtUsartView;

    open spec fn view(&self) -> BtUsartView {
        BtUsartView {
            rx_armed: self.rx_armed as nat,
            rx_pending: self.rx_pending_flag,
            rx_data: self.rx_buf@,
            staged: self.staged_buf@,
            tx_busy: self.tx_busy,
            wire: self.wire_log@,
            wake_raised: self.wake_raised,
        }
    }
}

impl BluetoothUsart {
    /// A quiet link: nothing armed, nothing staged, nothing sent.
    pub fn new() -> (u: BluetoothUsart)
        ensures
            u.inv(),
            u@ == (BtUsartView {
                rx_armed: 0,
                rx_pending: false,
                rx_data: Seq::<u8>::empty(),
                staged: Seq::<u8>::empty(),
                tx_busy: false,
                wire: Seq::<u8>::empty(),
                wake_raised: false,
            }),
    {
        let u = BluetoothUsart {
            rx_armed: 0,
            rx_pending_flag: false,
            rx_buf: Vec::new(),
            staged_buf: Vec::new(),
            tx_busy: false,
            wire_log: Vec::new(),
            wake_raised: false,
        };
        proof {
            assert(u@ =~= (BtUsartView {
                rx_armed: 0,
                rx_pending: false,
                rx_data: Seq::<u8>::empty(),
                staged: Seq::<u8>::empty(),
                tx_busy: false,
                wire: Seq::<u8>::empty(),
                wake_raised: false,
            }));
        }
        u
    }

    /// Test-bench side of the wire: the armed number of bytes arrives from
    /// the Bluetooth module and the receive completes.
    pub fn deliver(&mut self, bytes: Vec<u8>)
        requires
            old(self).inv(),
            !old(self).rx_pending(),
            bytes@.len() == old(self).rx_armed_len(),
        ensures
            final(self).inv(),
            final(self)@ == (BtUsartView {
                rx_pending: true,
                rx_data: bytes@,
                ..old(self)@
            }),
    {
        self.rx_buf = bytes;
        self.rx_pending_flag = true;
        proof {
            assert(final(self)@ =~= (BtUsartView {
                rx_pending: true,
                rx_data: self.rx_buf@,
                ..old(self)@
            }));
        }
    }

    /// Test-bench side of the transmitter: the DMA burst has drained.
    pub fn complete_tx(&mut self)
        requires
            old(self).inv(),
        ensures
            final(self).inv(),
            final(self)@ == (BtUsartView { tx_busy: false, ..old(self)@ }),
    {
        self.tx_busy = false;
        proof {
            assert(final(self)@ =~= (BtUsartView { tx_busy: false, ..old(self)@ }));
        }
    }
}

impl DmaUsart for BluetoothUsart {
    open spec fn inv(&self) -> bool {
        &&& self.rx_armed <= 255
        &&& (self.rx_pending_flag ==> self.rx_buf@.len() == self.rx_armed)
    }

    open spec fn rx_pending(&self) -> bool {
        self@.rx_pending
    }

    open spec fn rx_armed_len(&self) -> nat {
        self@.rx_armed
    }

    open spec fn rx_data(&self) -> Seq<u8> {
        self@.rx_data
    }

    /// Ready while idle, and also while bytes are staged awaiting the
    /// wakeup acknowledgement: those sends batch into the staged burst.
    open spec fn tx_ready(&self) -> bool {
        !self@.tx_busy || self@.staged.len() > 0
    }

    open spec fn wire(&self) -> Seq<u8> {
        self@.wire
    }

    open spec fn staged(&self) -> Seq<u8> {
        self@.staged
    }

    open spec fn send_spec(pre: Self, post: Self, bytes: Seq<u8>) -> bool {
        post@ == spec_bt_send(pre@, bytes)
    }

    fn is_receive_pending(&self) -> (r: bool) {
        self.rx_pending_flag
    }

    /// Arming a receive also resets the wake line, as the driver does once
    /// the wakeup handshake is over.
    fn receive(&mut self, length: u16) {
        self.wake_raised = false;
        self.rx_pending_flag = false;
        self.rx_armed = length;
    }

    fn fetch_received(&self, buffer: &mut Vec<u8>, offset: usize) {
        let buf_len: usize = buffer.len();
        let mut i: usize = 0;
        while i < self.rx_buf.len()
            invariant
                i <= self.rx_buf@.len(),
                buf_len == buffer@.len(),
                offset + self.rx_buf@.len() <= buf_len,
                buffer@.len() == old(buffer)@.len(),
                forall|j: int| 0 <= j < i ==> buffer@[offset + j] == self.rx_buf@[j],
                forall|j: int|
                    0 <= j < buffer@.len() && !(offset <= j < offset + i) ==> buffer@[j] == old(
                        buffer,
                    )@[j],
            decreases self.rx_buf@.len() - i,
        {
            buffer[offset + i] = self.rx_buf[i];
            i = i + 1;
        }
        proof {
            assert(buffer@ =~= overlay(old(buffer)@, offset as int, self.rx_buf@));
        }
    }

    fn is_send_ready(&self) -> (r: bool) {
        !self.tx_busy || self.staged_buf.len() > 0
    }

    fn send(&mut self, buffer: &Vec<u8>, length: u16) {
        if self.staged_buf.len() == 0 {
            self.rx_pending_flag = false;
            self.rx_armed = 2;
            self.wake_raised = true;
        }
        let mut staged: Vec<u8> = Vec::new();
        let mut i: usize = 0;
        while i < length as usize
            invariant
                i <= length as usize,
                length as int <= buffer@.len(),
                staged@ == buffer@.subrange(0, i as int),
            decreases length as usize - i,
        {
            staged.push(buffer[i]);
            proof {
                assert(staged@ =~= buffer@.subrange(0, i + 1));
            }
            i = i + 1;
        }
        self.staged_buf = staged;
        proof {
            assert(self.staged_buf@ =~= buffer@.take(length as int));
            assert(final(self)@ =~= spec_bt_send(old(self)@, buffer@.take(length as int)));
        }
    }

    /// The wakeup acknowledgement arrived: release the staged burst.
    fn ack_wakeup(&mut self) {
        if self.staged_buf.len() > 0 {
            self.tx_busy = true;
        }
        self.wire_log.append(&mut self.staged_buf);
    }

    fn tx_interrupt(&mut self) {
        self.tx_busy = false;
    }
}

/// Wakeup gate: a send on this link emits nothing on the wire, and while
/// bytes sit staged the link still accepts further sends, so frames queued
/// during the handshake all batch.  Only `ack_wakeup` releases bytes.
pub proof fn lemma_wakeup_gate(pre: BluetoothUsart, post: BluetoothUsart, bytes: Seq<u8>)
    requires
        BluetoothUsart::send_spec(pre, post, bytes),
    ensures
        post.wire() == pre.wire(),
        bytes.len() > 0 ==> post.tx_ready(),
        post.staged() == bytes,
{
}

} // verus!
