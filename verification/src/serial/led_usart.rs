//! The LED-link DMA engine.
//!
//! This is an in-memory model of the engine's observable behaviour; the
//! register-level driver that realises it on the MCU lives with the hardware
//! and stays outside the verified core.  The LED controller needs no wakeup:
//! a send starts the DMA burst at once, and the transmitter is busy until
//! the transfer completes.

use vstd::prelude::*;
use crate::serial::{DmaUsart, overlay};

verus! {

/// Observable state of the LED DMA engine.
#[verifier::ext_equal]
pub ghost struct LedUsartView {
    pub rx_armed: nat,
    pub rx_pending: bool,
    pub rx_data: Seq<u8>,
    pub tx_busy: bool,
    pub wire: Seq<u8>,
}

/// What `send` does on this link: the bytes go out immediately and the
/// transmitter is busy until the transfer-complete interrupt.
pub open spec fn spec_led_send(v: LedUsartView, bytes: Seq<u8>) -> LedUsartView {
    LedUsartView { wire: v.wire + bytes, tx_busy: true, ..v }
}

/// The LED UART with its DMA channels.
pub struct LedUsart {
    pub rx_armed: u16,
    pub rx_pending_flag: bool,
    pub rx_buf: Vec<u8>,
    pub tx_busy: bool,
    pub wire_log: Vec<u8>,
}

impl View for LedUsart {
    type V = LedUsartView;

    open spec fn view(&self) -> LedUsartView {
        LedUsartView {
            rx_armed: self.rx_armed as nat,
            rx_pending: self.rx_pending_flag,
            rx_data: self.rx_buf@,
            tx_busy: self.tx_busy,
            wire: self.wire_log@,
        }
    }
}

impl LedUsart {
    /// A quiet link: nothing armed, nothing sent.
    pub fn new() -> (u: LedUsart)
        ensures
            u.inv(),
            u@ == (LedUsartView {
                rx_armed: 0,
                rx_pending: false,
                rx_data: Seq::<u8>::empty(),
                tx_busy: false,
                wire: Seq::<u8>::empty(),
            }),
    {
        let u = LedUsart {
            rx_armed: 0,
            rx_pending_flag: false,
            rx_buf: Vec::new(),
            tx_busy: false,
            wire_log: Vec::new(),
        };
        proof {
            assert(u@ =~= (LedUsartView {
                rx_armed: 0,
                rx_pending: false,
                rx_data: Seq::<u8>::empty(),
                tx_busy: false,
                wire: Seq::<u8>::empty(),
            }));
        }
        u
    }

    /// Test-bench side of the wire: the armed number of bytes arrives from
    /// the LED controller and the receive completes.
    pub fn deliver(&mut self, bytes: Vec<u8>)
        requires
            old(self).inv(),
            !old(self).rx_pending(),
            bytes@.len() == old(self).rx_armed_len(),
        ensures
            final(self).inv(),
            final(self)@ == (LedUsartView { rx_pending: true, rx_data: bytes@, ..old(self)@ }),
    {
        self.rx_buf = bytes;
        self.rx_pending_flag = true;
        proof {
            assert(final(self)@ =~= (LedUsartView {
                rx_pending: true,
                rx_data: self.rx_buf@,
                ..old(self)@
            }));
        }
    }

    /// Test-bench side of the transmitter: the DMA burst has drained.
    pub fn complete_tx(&mut self)
        requires
            old(self).inv(),
        ensures
            final(self).inv(),
            final(self)@ == (LedUsartView { tx_busy: false, ..old(self)@ }),
    {
        self.tx_busy = false;
        proof {
            assert(final(self)@ =~= (LedUsartView { tx_busy: false, ..old(self)@ }));
        }
    }
}

impl DmaUsart for LedUsart {
    open spec fn inv(&self) -> bool {
        &&& self.rx_armed <= 255
        &&& (self.rx_pending_flag ==> self.rx_buf@.len() == self.rx_armed)
    }

    open spec fn rx_pending(&self) -> bool {
        self@.rx_pending
    }

    open spec fn rx_armed_len(&self) -> nat {
        self@.rx_armed
    }

    open spec fn rx_data(&self) -> Seq<u8> {
        self@.rx_data
    }

    open spec fn tx_ready(&self) -> bool {
        !self@.tx_busy
    }

    open spec fn wire(&self) -> Seq<u8> {
        self@.wire
    }

    open spec fn staged(&self) -> Seq<u8> {
        Seq::<u8>::empty()
    }

    open spec fn send_spec(pre: Self, post: Self, bytes: Seq<u8>) -> bool {
        post@ == spec_led_send(pre@, bytes)
    }

    fn is_receive_pending(&self) -> (r: bool) {
        self.rx_pending_flag
    }

    fn receive(&mut self, length: u16) {
        self.rx_pending_flag = false;
        self.rx_armed = length;
    }

    fn fetch_received(&self, buffer: &mut Vec<u8>, offset: usize) {
        let buf_len: usize = buffer.len();
        let mut i: usize = 0;
        while i < self.rx_buf.len()
            invariant
                i <= self.rx_buf@.len(),
                buf_len == buffer@.len(),
                offset + self.rx_buf@.len() <= buf_len,
                buffer@.len() == old(buffer)@.len(),
                forall|j: int| 0 <= j < i ==> buffer@[offset + j] == self.rx_buf@[j],
                forall|j: int|
                    0 <= j < buffer@.len() && !(offset <= j < offset + i) ==> buffer@[j] == old(
                        buffer,
                    )@[j],
            decreases self.rx_buf@.len() - i,
        {
            buffer[offset + i] = self.rx_buf[i];
            i = i + 1;
        }
        proof {
            assert(buffer@ =~= overlay(old(buffer)@, offset as int, self.rx_buf@));
        }
    }

    fn is_send_ready(&self) -> (r: bool) {
        !self.tx_busy
    }

    fn send(&mut self, buffer: &Vec<u8>, length: u16) {
        let mut i: usize = 0;
        while i < length as usize
            invariant
                i <= length as usize,
                length as int <= buffer@.len(),
                self.rx_armed == old(self).rx_armed,
                self.rx_pending_flag == old(self).rx_pending_flag,
                self.rx_buf@ == old(self).rx_buf@,
                self.tx_busy == old(self).tx_busy,
                self.wire_log@ == old(self).wire_log@ + buffer@.subrange(0, i as int),
            decreases length as usize - i,
        {
            self.wire_log.push(buffer[i]);
            proof {
                assert(self.wire_log@ =~= old(self).wire_log@ + buffer@.subrange(0, i + 1));
            }
            i = i + 1;
        }
        self.tx_busy = true;
        proof {
            assert(final(self)@ =~= spec_led_send(old(self)@, buffer@.take(length as int)));
        }
    }

    /// The LED link has no wakeup handshake; nothing is ever staged.
    fn ack_wakeup(&mut self) {
        proof {
            assert(final(self).wire() =~= old(self).wire() + old(self).staged());
        }
    }

    fn tx_interrupt(&mut self) {
        self.tx_busy = false;
    }
}

} // verus!
