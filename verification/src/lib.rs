//! Verified core of a 60% mechanical keyboard firmware.
//!
//! One MCU drives three subsystems over shared DMA hardware: a scanned key
//! matrix, two half-duplex UART links (one to an LED controller, one to a
//! Bluetooth module) speaking a common length-framed protocol, and a USB HID
//! device.  This crate holds the event pipeline and the DMA-serial transport:
//! turning a packed matrix sample into layered keyboard actions, assembling
//! HID reports, and framing commands for the two companion MCUs over
//! wakeup-gated DMA UARTs.  Register-level peripheral bring-up, the USB
//! device stack and the physical pin scanning stay outside the verified core;
//! the DMA engines are reached through the `DmaUsart` interface.

pub mod bits;
pub mod protocol;
pub mod keycodes;
pub mod action;
pub mod layout;
pub mod keystate;
pub mod hidreport;
pub mod serial;
pub mod usb;
pub mod led;
pub mod bluetooth;
pub mod keyboard;
