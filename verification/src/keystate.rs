//! The packed scan-matrix state.
//!
//! One bit per matrix cell, row-major, least-significant bit first: bit `k`
//! of byte `k / 8` is 1 exactly when the key at `KeyIndex` position `k` is
//! pressed.  The same nine bytes are the payload of the "send keys to the LED
//! controller" message, so the packing is part of the wire format.  The two
//! bits above position 69 are unused and stay zero.

use vstd::prelude::*;
use crate::bits::{get_bit8, set_bit8, u8_bit, u8_set_bit};

verus! {

/// Number of physical keys (matrix cells).
pub const KEY_COUNT: usize = 70;

/// Number of bytes in the packed state.
pub const STATE_BYTES: usize = 9;

/// Packed pressed/released state of the whole matrix.
pub struct KeyState {
    pub bytes: Vec<u8>,
}

impl KeyState {
    /// Nine bytes, with the two bits above the last key position clear.
    pub open spec fn wf(self) -> bool {
        &&& self.bytes@.len() == STATE_BYTES
        &&& !u8_bit(self.bytes@[8], 6)
        &&& !u8_bit(self.bytes@[8], 7)
    }

    /// Whether the key at matrix position `k` is pressed.
    pub open spec fn spec_bit(self, k: int) -> bool {
        u8_bit(self.bytes@[k / 8], (k % 8) as u8)
    }

    /// All keys released.
    pub fn new() -> (s: KeyState)
        ensures
            s.wf(),
            forall|k: int| 0 <= k < KEY_COUNT ==> !s.spec_bit(k),
            s.bytes@ =~= seq![0u8, 0u8, 0u8, 0u8, 0u8, 0u8, 0u8, 0u8, 0u8],
    {
        let mut bytes: Vec<u8> = Vec::new();
        let mut i: usize = 0;
        while i < STATE_BYTES
            invariant
                i <= STATE_BYTES,
                bytes@.len() == i,
                forall|j: int| 0 <= j < i ==> bytes@[j] == 0u8,
            decreases STATE_BYTES - i,
        {
            bytes.push(0);
            i = i + 1;
        }
        let s = KeyState { bytes };
        proof {
            assert(s.bytes@ =~= seq![0u8, 0u8, 0u8, 0u8, 0u8, 0u8, 0u8, 0u8, 0u8]);
            assert forall|k: int| 0 <= k < KEY_COUNT implies !s.spec_bit(k) by {
                assert(s.bytes@[k / 8] == 0u8);
                let i = (k % 8) as u8;
                assert(!u8_bit(0u8, i)) by (bit_vector);
            }
            assert(!u8_bit(0u8, 6u8)) by (bit_vector);
            assert(!u8_bit(0u8, 7u8)) by (bit_vector);
        }
        s
    }

    /// Read the bit of matrix position `k`.
    pub fn get(&self, k: usize) -> (r: bool)
        requires
            self.bytes@.len() == STATE_BYTES,
            k < KEY_COUNT,
        ensures
            r == self.spec_bit(k as int),
    {
        get_bit8(self.bytes[k / 8], (k % 8) as u8)
    }

    /// Set the bit of matrix position `k`; every other bit is unchanged.
    pub fn set(&mut self, k: usize, pressed: bool)
        requires
            old(self).wf(),
            k < KEY_COUNT,
        ensures
            final(self).wf(),
            final(self).spec_bit(k as int) == pressed,
            forall|j: int|
                0 <= j < KEY_COUNT && j != k ==> final(self).spec_bit(j) == old(self).spec_bit(j),
    {
        let byte = k / 8;
        let bit = (k % 8) as u8;
        let updated = set_bit8(self.bytes[byte], bit, pressed);
        self.bytes.set(byte, updated);
        proof {
            crate::bits::lemma_u8_set_bit(old(self).bytes@[byte as int], bit, pressed);
            assert forall|j: int|
                0 <= j < KEY_COUNT && j != k implies final(self).spec_bit(j) == old(
                self,
            ).spec_bit(j) by {
                if j / 8 == byte {
                    assert((j % 8) as u8 != bit);
                }
            }
            if byte == 8 {
                assert(bit < 6) by {
                    assert(k < 70 && k / 8 == 8 ==> k % 8 < 6);
                }
            }
        }
    }

    /// The LED wire payload: the packed bytes exactly as stored.
    pub fn to_bytes(&self) -> (r: Vec<u8>)
        ensures
            r@ == self.bytes@,
    {
        let mut r: Vec<u8> = Vec::new();
        let mut i: usize = 0;
        while i < self.bytes.len()
            invariant
                i <= self.bytes@.len(),
                r@ == self.bytes@.subrange(0, i as int),
            decreases self.bytes@.len() - i,
        {
            r.push(self.bytes[i]);
            proof {
                assert(r@ =~= self.bytes@.subrange(0, i + 1));
            }
            i = i + 1;
        }
        proof {
            assert(r@ =~= self.bytes@);
        }
        r
    }

    /// Rebuild a state from an LED wire payload.
    pub fn from_bytes(bytes: Vec<u8>) -> (s: KeyState)
        requires
            bytes@.len() == STATE_BYTES,
            !u8_bit(bytes@[8], 6),
            !u8_bit(bytes@[8], 7),
        ensures
            s.wf(),
            s.bytes@ == bytes@,
    {
        KeyState { bytes }
    }

    /// Whether two states press exactly the same keys (byte-wise equality).
    pub fn same_as(&self, other: &KeyState) -> (r: bool)
        requires
            self.bytes@.len() == STATE_BYTES,
            other.bytes@.len() == STATE_BYTES,
        ensures
            r == (self.bytes@ == other.bytes@),
    {
        let mut i: usize = 0;
        while i < STATE_BYTES
            invariant
                i <= STATE_BYTES,
                self.bytes@.len() == STATE_BYTES,
                other.bytes@.len() == STATE_BYTES,
                forall|j: int| 0 <= j < i ==> self.bytes@[j] == other.bytes@[j],
            decreases STATE_BYTES - i,
        {
            if self.bytes[i] != other.bytes[i] {
                return false;
            }
            i = i + 1;
        }
        proof {
            assert(self.bytes@ =~= other.bytes@);
        }
        true
    }

    /// An independent copy of this state.
    pub fn duplicate(&self) -> (s: KeyState)
        requires
            self.wf(),
        ensures
            s.wf(),
            s.bytes@ == self.bytes@,
    {
        KeyState { bytes: self.to_bytes() }
    }
}

/// A byte is determined by its eight bits.
proof fn lemma_u8_bits_determine(x: u8, y: u8)
    by (bit_vector)
    requires
        u8_bit(x, 0) == u8_bit(y, 0),
        u8_bit(x, 1) == u8_bit(y, 1),
        u8_bit(x, 2) == u8_bit(y, 2),
        u8_bit(x, 3) == u8_bit(y, 3),
        u8_bit(x, 4) == u8_bit(y, 4),
        u8_bit(x, 5) == u8_bit(y, 5),
        u8_bit(x, 6) == u8_bit(y, 6),
        u8_bit(x, 7) == u8_bit(y, 7),
    ensures
        x == y,
{
}

/// Key-state packing is faithful in both directions: the wire payload is the
/// stored bytes themselves, and two well-formed states agree on every byte of
/// the payload exactly when they press the same keys.  Together with the
/// contracts of `to_bytes` and `from_bytes`, the state round-trips through
/// the LED wire format byte for byte.
pub proof fn lemma_key_state_packing(a: KeyState, b: KeyState)
    requires
        a.wf(),
        b.wf(),
    ensures
        (a.bytes@ == b.bytes@) <==> (forall|k: int|
            0 <= k < KEY_COUNT ==> a.spec_bit(k) == b.spec_bit(k)),
{
    if forall|k: int| 0 <= k < KEY_COUNT ==> a.spec_bit(k) == b.spec_bit(k) {
        assert forall|i: int| 0 <= i < STATE_BYTES implies a.bytes@[i] == b.bytes@[i] by {
            if i < 8 {
                assert forall|j: u8| j < 8 implies u8_bit(a.bytes@[i], j) == u8_bit(
                    b.bytes@[i],
                    j,
                ) by {
                    let k = 8 * i + j;
                    assert(0 <= k < 70);
                    assert(k / 8 == i && (k % 8) as u8 == j);
                    assert(a.spec_bit(k) == b.spec_bit(k));
                }
                lemma_u8_bits_determine(a.bytes@[i], b.bytes@[i]);
            } else {
                assert forall|j: u8| j < 8 implies u8_bit(a.bytes@[8], j) == u8_bit(
                    b.bytes@[8],
                    j,
                ) by {
                    if j < 6 {
                        let k = 8 * 8 + j;
                        assert(0 <= k < 70);
                        assert(k / 8 == 8 && (k % 8) as u8 == j);
                        assert(a.spec_bit(k) == b.spec_bit(k));
                    }
                }
                lemma_u8_bits_determine(a.bytes@[8], b.bytes@[8]);
            }
        }
        assert(a.bytes@ =~= b.bytes@);
    }
}

} // verus!
