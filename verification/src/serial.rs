//! Framed transport over a DMA-driven UART.
//!
//! A frame on either companion link is `[msg_type, 1 + |data|, operation,
//! data...]`: `3 + |data|` bytes in all.  Outgoing frames are batched in a
//! send buffer whose cursor only resets on the transmit-complete interrupt,
//! so several frames staged while the Bluetooth module wakes up leave in one
//! DMA burst.  Incoming frames arrive in two stages: a two-byte header is
//! armed first, then the length byte of the header decides how many body
//! bytes to arm.

pub mod bluetooth_usart;
pub mod led_usart;

use vstd::prelude::*;
use crate::protocol::{MsgType, msg_type_value};

verus! {

/// A send was refused: the transmitter is busy or the send buffer is full.
/// The caller drops the frame; the next scan tick naturally retries.
#[derive(Copy, Clone, PartialEq, Eq, Structural, Debug)]
pub struct WouldBlock;

/// Bytes armed for the header stage of a receive.
pub const HEADER_SIZE: u16 = 2;

/// A receive buffer must hold a header plus the longest possible body
/// (a length byte runs to 255).
pub const RX_BUFFER_SIZE: usize = 257;

/// `base` with `data` written at position `off`; everything else unchanged.
pub open spec fn overlay(base: Seq<u8>, off: int, data: Seq<u8>) -> Seq<u8> {
    Seq::new(
        base.len(),
        |i: int|
            if off <= i < off + data.len() {
                data[i - off]
            } else {
                base[i]
            },
    )
}

/// The wire image of one frame.
pub open spec fn frame_bytes(t: MsgType, op: u8, data: Seq<u8>) -> Seq<u8> {
    seq![msg_type_value(t), (data.len() + 1) as u8, op] + data
}

/// Frame length law: a frame is `3 + |data|` bytes, its first three bytes
/// are the message kind, `1 + |data|` and the operation, and the rest is the
/// payload itself.
pub proof fn lemma_frame_shape(t: MsgType, op: u8, data: Seq<u8>)
    requires
        data.len() <= 254,
    ensures
        frame_bytes(t, op, data).len() == 3 + data.len(),
        frame_bytes(t, op, data)[0] == msg_type_value(t),
        frame_bytes(t, op, data)[1] == data.len() + 1,
        frame_bytes(t, op, data)[2] == op,
        frame_bytes(t, op, data).subrange(3, 3 + data.len() as int) == data,
{
    assert(frame_bytes(t, op, data).subrange(3, 3 + data.len() as int) =~= data);
}

/// Receive symmetry: a buffer that holds a frame produced by `frame_bytes`
/// (its header written at position 0, its body at position 2, as the two
/// receive stages do) decodes to exactly the kind, operation and payload
/// that were framed.
pub proof fn lemma_frame_round_trip(t: MsgType, op: u8, data: Seq<u8>, scratch: Seq<u8>)
    requires
        data.len() <= 254,
        scratch.len() >= RX_BUFFER_SIZE,
    ensures
        ({
            let f = frame_bytes(t, op, data);
            let filled = overlay(overlay(scratch, 0, f.take(2)), 2, f.skip(2));
            crate::protocol::spec_parse(filled) == Some((t, op, data))
        }),
{
    let f = frame_bytes(t, op, data);
    let filled = overlay(overlay(scratch, 0, f.take(2)), 2, f.skip(2));
    crate::protocol::lemma_msg_type_round_trip(t);
    assert(filled[0] == msg_type_value(t));
    assert(filled[1] == data.len() + 1);
    assert(filled[2] == op);
    assert(filled.subrange(3, 2 + (data.len() + 1) as u8 as int) =~= data);
}

/// The per-peripheral DMA primitives of one UART.
///
/// The observable state of an engine is what its registers and its wiring
/// determine: whether a receive has completed (`rx_pending`) and with which
/// bytes (`rx_data`), whether a send would be accepted (`tx_ready`), which
/// bytes have actually been emitted on the wire (`wire`), and which bytes
/// are staged awaiting the Bluetooth wakeup acknowledgement (`staged`; the
/// LED link stages nothing).  Each implementation fixes what `send` does
/// through its `send_spec`.
pub trait DmaUsart: Sized {
    spec fn inv(&self) -> bool;

    spec fn rx_pending(&self) -> bool;

    spec fn rx_armed_len(&self) -> nat;

    spec fn rx_data(&self) -> Seq<u8>;

    spec fn tx_ready(&self) -> bool;

    spec fn wire(&self) -> Seq<u8>;

    spec fn staged(&self) -> Seq<u8>;

    /// How `send` transforms this engine when handed `bytes`.
    spec fn send_spec(pre: Self, post: Self, bytes: Seq<u8>) -> bool;

    /// Whether the armed receive has completed since it was armed.
    fn is_receive_pending(&self) -> (r: bool)
        requires
            self.inv(),
        ensures
            r == self.rx_pending(),
            self.rx_armed_len() <= 255,
            self.rx_pending() ==> self.rx_data().len() == self.rx_armed_len(),
    ;

    /// Arm a receive of exactly `length` bytes, clearing any pending flag.
    fn receive(&mut self, length: u16)
        requires
            old(self).inv(),
            length <= 255,
        ensures
            final(self).inv(),
            final(self).rx_armed_len() == length as nat,
            !final(self).rx_pending(),
            final(self).tx_ready() == old(self).tx_ready(),
            final(self).wire() == old(self).wire(),
            final(self).staged() == old(self).staged(),
    ;

    /// Make the completed receive's bytes visible in `buffer` at `offset`,
    /// where the receive was armed.
    fn fetch_received(&self, buffer: &mut Vec<u8>, offset: usize)
        requires
            self.inv(),
            self.rx_pending(),
            offset + self.rx_data().len() <= old(buffer)@.len(),
        ensures
            final(buffer)@ == overlay(old(buffer)@, offset as int, self.rx_data()),
    ;

    /// Whether a send would be accepted now.
    fn is_send_ready(&self) -> (r: bool)
        requires
            self.inv(),
        ensures
            r == self.tx_ready(),
    ;

    /// Hand the first `length` bytes of `buffer` to the engine.
    fn send(&mut self, buffer: &Vec<u8>, length: u16)
        requires
            old(self).inv(),
            old(self).tx_ready(),
            length as int <= buffer@.len(),
        ensures
            final(self).inv(),
            Self::send_spec(*old(self), *final(self), buffer@.take(length as int)),
    ;

    /// Release staged bytes onto the wire.  Meaningful only on the
    /// Bluetooth link, where it runs when the wakeup acknowledgement
    /// arrives; the LED link never stages.  Releasing a non-empty batch
    /// starts a DMA burst, so the transmitter is busy until the
    /// transmit-complete interrupt.
    fn ack_wakeup(&mut self)
        requires
            old(self).inv(),
        ensures
            final(self).inv(),
            final(self).wire() == old(self).wire() + old(self).staged(),
            final(self).staged() == Seq::<u8>::empty(),
            old(self).staged().len() > 0 ==> !final(self).tx_ready(),
            old(self).staged().len() == 0 ==> final(self).tx_ready() == old(self).tx_ready(),
            final(self).rx_pending() == old(self).rx_pending(),
            final(self).rx_armed_len() == old(self).rx_armed_len(),
            final(self).rx_data() == old(self).rx_data(),
    ;

    /// Handle the transmit-complete interrupt: the engine is idle again.
    fn tx_interrupt(&mut self)
        requires
            old(self).inv(),
        ensures
            final(self).inv(),
            final(self).tx_ready(),
            final(self).wire() == old(self).wire(),
            final(self).staged() == old(self).staged(),
            final(self).rx_pending() == old(self).rx_pending(),
            final(self).rx_armed_len() == old(self).rx_armed_len(),
            final(self).rx_data() == old(self).rx_data(),
    ;
}

/// Which stage of a frame the in-flight receive is armed for.
#[derive(Copy, Clone, PartialEq, Eq, Structural, Debug)]
pub enum ReceiveStage {
    Header,
    Body,
}

/// A two-stage receive binding a buffer to an in-flight rx: the header
/// lands at bytes 0..2, the body at bytes 2 onward.
pub struct Transfer {
    pub buffer: Vec<u8>,
    pub stage: ReceiveStage,
}

impl Transfer {
    /// The buffer can hold a header plus the longest possible body.
    pub open spec fn wf(self) -> bool {
        self.buffer@.len() >= RX_BUFFER_SIZE
    }

    /// Advance the receive.  While the header is armed, a completion reads
    /// the length byte, re-arms for the body, and still reports
    /// `WouldBlock`; while the body is armed, a completion fills the buffer
    /// and reports `Ok`.  The transmit side is never touched.
    pub fn poll<U: DmaUsart>(&mut self, usart: &mut U) -> (r: Result<(), WouldBlock>)
        requires
            old(self).wf(),
            old(usart).inv(),
        ensures
            final(self).wf(),
            final(usart).inv(),
            final(usart).tx_ready() == old(usart).tx_ready(),
            final(usart).wire() == old(usart).wire(),
            final(usart).staged() == old(usart).staged(),
            final(self).buffer@.len() == old(self).buffer@.len(),
            !old(usart).rx_pending() ==> {
                &&& r is Err
                &&& *final(self) == *old(self)
                &&& *final(usart) == *old(usart)
            },
            old(usart).rx_pending() && old(self).stage == ReceiveStage::Header ==> {
                &&& r is Err
                &&& final(self).stage == ReceiveStage::Body
                &&& final(self).buffer@ == overlay(old(self).buffer@, 0, old(usart).rx_data())
                &&& final(usart).rx_armed_len() == final(self).buffer@[1]
                &&& !final(usart).rx_pending()
            },
            old(usart).rx_pending() && old(self).stage == ReceiveStage::Body ==> {
                &&& r is Ok
                &&& final(self).stage == ReceiveStage::Body
                &&& final(self).buffer@ == overlay(old(self).buffer@, 2, old(usart).rx_data())
                &&& *final(usart) == *old(usart)
            },
    {
        if usart.is_receive_pending() {
            match self.stage {
                ReceiveStage::Header => {
                    usart.fetch_received(&mut self.buffer, 0);
                    let body_len = self.buffer[1];
                    self.stage = ReceiveStage::Body;
                    usart.receive(body_len as u16);
                    Err(WouldBlock)
                },
                ReceiveStage::Body => {
                    usart.fetch_received(&mut self.buffer, 2);
                    Ok(())
                },
            }
        } else {
            Err(WouldBlock)
        }
    }

    /// Consume the transfer and yield the buffer back for parsing.
    pub fn finish(self) -> (b: Vec<u8>)
        ensures
            b == self.buffer,
    {
        self.buffer
    }
}

/// The framing layer over one DMA UART: a send buffer, its cursor, and the
/// engine itself.
pub struct Serial<U: DmaUsart> {
    pub usart: U,
    pub send_buffer: Vec<u8>,
    pub send_buffer_pos: u16,
}

/// What `Serial::send` does: exactly when the engine is ready and the frame
/// fits, the frame is appended at the cursor and the whole batched prefix is
/// handed to the engine; otherwise nothing changes at all.
pub open spec fn send_result<U: DmaUsart>(
    pre: Serial<U>,
    post: Serial<U>,
    t: MsgType,
    op: u8,
    data: Seq<u8>,
    ok: bool,
) -> bool {
    let tx_len = 3 + data.len() as int;
    let fits = pre.usart.tx_ready() && pre.send_buffer_pos + tx_len <= pre.send_buffer@.len();
    &&& ok == fits
    &&& if fits {
        &&& post.send_buffer@ == overlay(
            pre.send_buffer@,
            pre.send_buffer_pos as int,
            frame_bytes(t, op, data),
        )
        &&& post.send_buffer_pos == pre.send_buffer_pos + tx_len
        &&& U::send_spec(
            pre.usart,
            post.usart,
            post.send_buffer@.take(post.send_buffer_pos as int),
        )
    } else {
        post == pre
    }
}

impl<U: DmaUsart> Serial<U> {
    /// The engine invariant holds and the cursor stays inside the buffer.
    pub open spec fn wf(self) -> bool {
        &&& self.usart.inv()
        &&& self.send_buffer_pos <= self.send_buffer@.len()
        &&& self.send_buffer@.len() <= 0xFFFF
    }

    pub fn new(usart: U, send_buffer: Vec<u8>) -> (s: Serial<U>)
        requires
            usart.inv(),
            send_buffer@.len() <= 0xFFFF,
        ensures
            s.wf(),
            s.usart == usart,
            s.send_buffer@ == send_buffer@,
            s.send_buffer_pos == 0,
    {
        Serial { usart, send_buffer, send_buffer_pos: 0 }
    }

    /// Arm a header-stage receive into `recv_buffer` and bind them.
    pub fn receive(&mut self, recv_buffer: Vec<u8>) -> (t: Transfer)
        requires
            old(self).wf(),
            recv_buffer@.len() >= RX_BUFFER_SIZE,
        ensures
            final(self).wf(),
            t.wf(),
            t.stage == ReceiveStage::Header,
            t.buffer@ == recv_buffer@,
            final(self).usart.rx_armed_len() == HEADER_SIZE,
            !final(self).usart.rx_pending(),
            final(self).usart.tx_ready() == old(self).usart.tx_ready(),
            final(self).usart.wire() == old(self).usart.wire(),
            final(self).usart.staged() == old(self).usart.staged(),
            final(self).send_buffer@ == old(self).send_buffer@,
            final(self).send_buffer_pos == old(self).send_buffer_pos,
    {
        self.usart.receive(HEADER_SIZE);
        Transfer { buffer: recv_buffer, stage: ReceiveStage::Header }
    }

    /// Append one frame at the cursor and hand the whole batch to the
    /// engine; refuse without any effect when the engine is not ready or
    /// the frame does not fit.
    pub fn send(&mut self, msg_type: MsgType, operation: u8, data: &Vec<u8>) -> (r: Result<
        (),
        WouldBlock,
    >)
        requires
            old(self).wf(),
            data@.len() <= 254,
        ensures
            final(self).wf(),
            send_result(*old(self), *final(self), msg_type, operation, data@, r is Ok),
    {
        let n = data.len();
        let tx_len: usize = 3 + n;
        let pos: usize = self.send_buffer_pos as usize;
        if self.usart.is_send_ready() && pos + tx_len <= self.send_buffer.len() {
            self.send_buffer[pos] = msg_type.to_u8();
            self.send_buffer[pos + 1] = (n + 1) as u8;
            self.send_buffer[pos + 2] = operation;
            let mut i: usize = 0;
            while i < n
                invariant
                    i <= n,
                    n == data@.len(),
                    n <= 254,
                    pos <= 0xFFFF,
                    pos + 3 + n <= self.send_buffer@.len(),
                    self.send_buffer@.len() <= 0xFFFF,
                    self.usart == old(self).usart,
                    self.send_buffer_pos == old(self).send_buffer_pos,
                    self.send_buffer@.len() == old(self).send_buffer@.len(),
                    self.send_buffer@[pos as int] == msg_type_value(msg_type),
                    self.send_buffer@[pos + 1] == (n + 1) as u8,
                    self.send_buffer@[pos + 2] == operation,
                    forall|j: int| 0 <= j < i ==> self.send_buffer@[pos + 3 + j] == data@[j],
                    forall|j: int|
                        0 <= j < self.send_buffer@.len() && !(pos <= j < pos + 3 + i)
                            ==> self.send_buffer@[j] == old(self).send_buffer@[j],
                decreases n - i,
            {
                self.send_buffer[pos + 3 + i] = data[i];
                i = i + 1;
            }
            proof {
                assert(self.send_buffer@ =~= overlay(
                    old(self).send_buffer@,
                    pos as int,
                    frame_bytes(msg_type, operation, data@),
                ));
            }
            self.send_buffer_pos = (pos + tx_len) as u16;
            self.usart.send(&self.send_buffer, self.send_buffer_pos);
            Ok(())
        } else {
            Err(WouldBlock)
        }
    }

    /// Transmit-complete interrupt: reset the cursor and idle the engine.
    pub fn tx_interrupt(&mut self)
        requires
            old(self).wf(),
        ensures
            final(self).wf(),
            final(self).send_buffer_pos == 0,
            final(self).send_buffer@ == old(self).send_buffer@,
            final(self).usart.tx_ready(),
            final(self).usart.wire() == old(self).usart.wire(),
            final(self).usart.staged() == old(self).usart.staged(),
            final(self).usart.rx_pending() == old(self).usart.rx_pending(),
            final(self).usart.rx_armed_len() == old(self).usart.rx_armed_len(),
            final(self).usart.rx_data() == old(self).usart.rx_data(),
    {
        self.send_buffer_pos = 0;
        self.usart.tx_interrupt();
    }
}

} // verus!
