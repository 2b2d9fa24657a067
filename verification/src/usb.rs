//! The slice of the USB device the core talks to.
//!
//! Enumeration, descriptors and endpoint bookkeeping belong to the USB
//! stack outside the verified core; the event pipeline only hands it the
//! current boot-keyboard report.

use vstd::prelude::*;
use crate::hidreport::HidReport;

verus! {

/// The HID endpoint state the core writes: the latest 8-byte report and the
/// active protocol.
pub struct UsbHid {
    pub report: Vec<u8>,
    pub protocol: u8,
}

impl UsbHid {
    /// Eight report bytes.
    pub open spec fn wf(self) -> bool {
        self.report@.len() == 8
    }

    pub fn new() -> (u: UsbHid)
        ensures
            u.wf(),
            u.report@ =~= seq![1u8, 0u8, 0u8, 0u8, 0u8, 0u8, 0u8, 0u8],
            u.protocol == 0,
    {
        let mut report: Vec<u8> = Vec::new();
        report.push(1);
        report.push(0);
        report.push(0);
        report.push(0);
        report.push(0);
        report.push(0);
        report.push(0);
        report.push(0);
        proof {
            assert(report@ =~= seq![1u8, 0u8, 0u8, 0u8, 0u8, 0u8, 0u8, 0u8]);
        }
        UsbHid { report, protocol: 0 }
    }

    /// Replace the report that the next IN transfer will carry.
    pub fn update_report(&mut self, report: &HidReport)
        requires
            old(self).wf(),
            report.wf(),
        ensures
            final(self).wf(),
            final(self).report@ == report.spec_bytes(),
            final(self).protocol == old(self).protocol,
    {
        self.report = report.to_bytes();
    }
}

} // verus!
