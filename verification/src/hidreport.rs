//! The 8-byte USB boot-keyboard report.

use vstd::prelude::*;

verus! {

/// One HID report: a modifier bitmap (bit `i` set means modifier
/// `LCtrl + i` is held), a reserved zero byte on the wire, and six key
/// slots holding HID usage IDs (0 = empty).
pub struct HidReport {
    pub modifiers: u8,
    pub keys: Vec<u8>,
}

impl HidReport {
    /// Exactly six key slots.
    pub open spec fn wf(self) -> bool {
        self.keys@.len() == 6
    }

    /// The eight wire bytes: modifiers, reserved zero, six key slots.
    pub open spec fn spec_bytes(self) -> Seq<u8> {
        seq![self.modifiers, 0u8] + self.keys@
    }

    /// The empty report.
    pub fn new() -> (r: HidReport)
        ensures
            r.wf(),
            r.modifiers == 0,
            r.keys@ =~= seq![0u8, 0u8, 0u8, 0u8, 0u8, 0u8],
    {
        let mut keys: Vec<u8> = Vec::new();
        keys.push(0);
        keys.push(0);
        keys.push(0);
        keys.push(0);
        keys.push(0);
        keys.push(0);
        proof {
            assert(keys@ =~= seq![0u8, 0u8, 0u8, 0u8, 0u8, 0u8]);
        }
        HidReport { modifiers: 0, keys }
    }

    /// The bytes sent in `Keyboard.KeyReport` frames and to the USB stack.
    pub fn to_bytes(&self) -> (r: Vec<u8>)
        requires
            self.wf(),
        ensures
            r@ == self.spec_bytes(),
            r@.len() == 8,
    {
        let mut r: Vec<u8> = Vec::new();
        r.push(self.modifiers);
        r.push(0);
        let mut i: usize = 0;
        while i < self.keys.len()
            invariant
                self.keys@.len() == 6,
                i <= 6,
                r@ == seq![self.modifiers, 0u8] + self.keys@.subrange(0, i as int),
            decreases self.keys@.len() - i,
        {
            r.push(self.keys[i]);
            proof {
                assert(r@ =~= seq![self.modifiers, 0u8] + self.keys@.subrange(0, i + 1));
            }
            i = i + 1;
        }
        proof {
            assert(r@ =~= self.spec_bytes());
        }
        r
    }
}

} // verus!
