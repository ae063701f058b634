//! Per-slot value records: the native instruction and routine records, and
//! the wire-layout operand and routine-argument records.
//!
//! The wire records mirror an external, byte-exact ABI: operands carry four
//! 64-bit limbs per side so that up to 256-bit comparisons are structurally
//! representable (only the low limb is ever decoded), and routine records
//! carry an explicit length byte per buffer.

use vstd::prelude::*;
use crate::values::zero_buf;

verus! {

/// A recorded instruction comparison in the native layout: the two operand
/// values, zero-extended to 64 bits, and the equality flag (1 when the
/// comparison held).
#[derive(Clone, Copy, Debug, PartialEq, Eq, Structural, Default)]
pub struct CmpLogInstruction(pub u64, pub u64, pub u8);

/// A recorded routine comparison in the native layout: the two argument
/// buffers, zero-padded to `CMPLOG_RTN_LEN` bytes.
#[derive(Clone, Copy, Debug, PartialEq, Eq)]
pub struct CmpLogRoutine(pub [u8; 32], pub [u8; 32]);

/// True of a routine record whose both buffers are all zero.
pub open spec fn routine_zeroed(r: CmpLogRoutine) -> bool {
    r.0@ == zero_buf() && r.1@ == zero_buf()
}

/// Copy a slice of at most 32 bytes into a fresh buffer, zero-padding the
/// tail.
pub fn buf32_from_slice(s: &[u8]) -> (r: [u8; 32])
    requires
        s@.len() <= 32,
    ensures
        r@ == s@ + zero_buf().take(32 - s@.len() as int),
        r@.len() == 32,
        forall|i: int| 0 <= i < s@.len() ==> r@[i] == s@[i],
        forall|i: int| s@.len() <= i < 32 ==> r@[i] == 0u8,
{
    let mut r: [u8; 32] = [0u8; 32];
    assert(forall|i: int| 0 <= i < 32 ==> r@[i] == 0u8);
    let n: usize = s.len();
    let mut i: usize = 0;
    while i < n
        invariant
            i <= n,
            n == s@.len() <= 32,
            r@.len() == 32,
            forall|j: int| 0 <= j < i ==> r@[j] == s@[j],
            forall|j: int| i <= j < 32 ==> r@[j] == 0u8,
        decreases n - i,
    {
        r[i] = *vstd::slice::slice_index_get(s, i);
        i = i + 1;
    }
    proof {
        assert(r@ =~= s@ + zero_buf().take(32 - s@.len() as int));
    }
    r
}

/// A recorded operand pair in the wire layout. Each side is held as four
/// 64-bit limbs (value, 128-bit high half, and two limbs reserved for
/// 256-bit operands), followed by eight reserved bytes, for a fixed 72-byte
/// record.
#[derive(Clone, Copy, Debug, PartialEq, Eq)]
pub struct AflppCmpLogOperands {
    /// Low 64 bits of the first operand.
    pub v0: u64,
    /// Bits 64..128 of the first operand.
    pub v0_128: u64,
    /// Bits 128..192 of the first operand, reserved.
    pub v0_256_0: u64,
    /// Bits 192..256 of the first operand, reserved.
    pub v0_256_1: u64,
    /// Low 64 bits of the second operand.
    pub v1: u64,
    /// Bits 64..128 of the second operand.
    pub v1_128: u64,
    /// Bits 128..192 of the second operand, reserved.
    pub v1_256_0: u64,
    /// Bits 192..256 of the second operand, reserved.
    pub v1_256_1: u64,
    /// Reserved padding, kept in the binary image.
    pub unused: [u8; 8],
}

/// True of an operand record whose every limb and padding byte is zero.
pub open spec fn operands_zeroed(r: AflppCmpLogOperands) -> bool {
    &&& r.v0 == 0
    &&& r.v0_128 == 0
    &&& r.v0_256_0 == 0
    &&& r.v0_256_1 == 0
    &&& r.v1 == 0
    &&& r.v1_128 == 0
    &&& r.v1_256_0 == 0
    &&& r.v1_256_1 == 0
    &&& r.unused@ == Seq::new(8, |i: int| 0u8)
}

impl AflppCmpLogOperands {
    /// Record a comparison of two 64-bit values.
    pub fn new(v0: u64, v1: u64) -> (r: AflppCmpLogOperands)
        ensures
            r.v0 == v0,
            r.v1 == v1,
            r.v0_128 == 0,
            r.v1_128 == 0,
            r.v0_256_0 == 0,
            r.v0_256_1 == 0,
            r.v1_256_0 == 0,
            r.v1_256_1 == 0,
            r.unused@ == Seq::new(8, |i: int| 0u8),
    {
        let r = AflppCmpLogOperands {
            v0,
            v0_128: 0,
            v0_256_0: 0,
            v0_256_1: 0,
            v1,
            v1_128: 0,
            v1_256_0: 0,
            v1_256_1: 0,
            unused: [0u8; 8],
        };
        proof {
            assert(r.unused@ =~= Seq::new(8, |i: int| 0u8));
        }
        r
    }

    /// Record a comparison of two 128-bit values, split into limbs.
    pub fn new_128bit(v0: u128, v1: u128) -> (r: AflppCmpLogOperands)
        ensures
            r.v0 == v0 as u64,
            r.v0_128 == (v0 >> 64) as u64,
            r.v1 == v1 as u64,
            r.v1_128 == (v1 >> 64) as u64,
            r.v0_256_0 == 0,
            r.v0_256_1 == 0,
            r.v1_256_0 == 0,
            r.v1_256_1 == 0,
            r.unused@ == Seq::new(8, |i: int| 0u8),
    {
        proof {
            let x = v0;
            let y = v1;
            assert(x >> 64 <= 0xffff_ffff_ffff_ffff && y >> 64 <= 0xffff_ffff_ffff_ffff)
                by (bit_vector);
        }
        let v0_128: u64 = (v0 >> 64) as u64;
        #[verifier::truncate]
        let v0: u64 = v0 as u64;
        let v1_128: u64 = (v1 >> 64) as u64;
        #[verifier::truncate]
        let v1: u64 = v1 as u64;
        let r = AflppCmpLogOperands {
            v0,
            v0_128,
            v0_256_0: 0,
            v0_256_1: 0,
            v1,
            v1_128,
            v1_256_0: 0,
            v1_256_1: 0,
            unused: [0u8; 8],
        };
        proof {
            assert(r.unused@ =~= Seq::new(8, |i: int| 0u8));
        }
        r
    }

    /// Low 64 bits of the first operand.
    pub fn v0(&self) -> (r: u64)
        ensures
            r == self.v0,
    {
        self.v0
    }

    /// Low 64 bits of the second operand.
    pub fn v1(&self) -> (r: u64)
        ensures
            r == self.v1,
    {
        self.v1
    }

    /// High 64 bits of the first 128-bit operand.
    pub fn v0_128(&self) -> (r: u64)
        ensures
            r == self.v0_128,
    {
        self.v0_128
    }

    /// High 64 bits of the second 128-bit operand.
    pub fn v1_128(&self) -> (r: u64)
        ensures
            r == self.v1_128,
    {
        self.v1_128
    }

    /// Overwrite the first operand with a 64-bit value.
    pub fn set_v0(&mut self, v0: u64)
        ensures
            final(self).v0 == v0,
            final(self).v0_128 == 0,
            *final(self) == (AflppCmpLogOperands { v0, v0_128: 0, ..*old(self) }),
    {
        self.v0 = v0;
        self.v0_128 = 0;
    }

    /// Overwrite the second operand with a 64-bit value.
    pub fn set_v1(&mut self, v1: u64)
        ensures
            final(self).v1 == v1,
            final(self).v1_128 == 0,
            *final(self) == (AflppCmpLogOperands { v1, v1_128: 0, ..*old(self) }),
    {
        self.v1 = v1;
        self.v1_128 = 0;
    }

    /// Overwrite the first operand with a 128-bit value.
    pub fn set_v0_128(&mut self, v0: u128)
        ensures
            final(self).v0 == v0 as u64,
            final(self).v0_128 == (v0 >> 64) as u64,
            *final(self) == (AflppCmpLogOperands {
                v0: v0 as u64,
                v0_128: (v0 >> 64) as u64,
                ..*old(self)
            }),
    {
        proof {
            let x = v0;
            assert(x >> 64 <= 0xffff_ffff_ffff_ffff) by (bit_vector);
        }
        self.v0_128 = (v0 >> 64) as u64;
        #[verifier::truncate]
        let low: u64 = v0 as u64;
        self.v0 = low;
    }

    /// Overwrite the second operand with a 128-bit value.
    pub fn set_v1_128(&mut self, v1: u128)
        ensures
            final(self).v1 == v1 as u64,
            final(self).v1_128 == (v1 >> 64) as u64,
            *final(self) == (AflppCmpLogOperands {
                v1: v1 as u64,
                v1_128: (v1 >> 64) as u64,
                ..*old(self)
            }),
    {
        proof {
            let x = v1;
            assert(x >> 64 <= 0xffff_ffff_ffff_ffff) by (bit_vector);
        }
        self.v1_128 = (v1 >> 64) as u64;
        #[verifier::truncate]
        let low: u64 = v1 as u64;
        self.v1 = low;
    }
}

/// A recorded routine comparison in the wire layout: the two argument
/// buffers, zero-padded to `CMPLOG_RTN_LEN` bytes, their length bytes, and
/// six reserved bytes, for a fixed 72-byte record.
#[derive(Clone, Copy, Debug, PartialEq, Eq)]
pub struct AflppCmpLogFnOperands {
    /// First argument buffer.
    pub v0: [u8; 32],
    /// Second argument buffer.
    pub v1: [u8; 32],
    /// Length byte of the first buffer; the top bit is reserved.
    pub v0_len: u8,
    /// Length byte of the second buffer; the top bit is reserved.
    pub v1_len: u8,
    /// Reserved padding, kept in the binary image.
    pub unused: [u8; 6],
}

/// True of a routine-argument record whose every byte is zero.
pub open spec fn fn_operands_zeroed(r: AflppCmpLogFnOperands) -> bool {
    &&& r.v0@ == zero_buf()
    &&& r.v1@ == zero_buf()
    &&& r.v0_len == 0
    &&& r.v1_len == 0
    &&& r.unused@ == Seq::new(6, |i: int| 0u8)
}

impl AflppCmpLogFnOperands {
    /// Record a routine comparison of two full-size buffers. Both slices
    /// must hold exactly `CMPLOG_RTN_LEN` bytes; the length bytes record
    /// that size.
    pub fn new(v0: &[u8], v1: &[u8]) -> (r: AflppCmpLogFnOperands)
        requires
            v0@.len() == 32,
            v1@.len() == 32,
        ensures
            r.v0@ == v0@,
            r.v1@ == v1@,
            r.v0_len == 32,
            r.v1_len == 32,
            r.unused@ == Seq::new(6, |i: int| 0u8),
    {
        let v0_len: u8 = v0.len() as u8;
        let v1_len: u8 = v1.len() as u8;
        let v0_arr = buf32_from_slice(v0);
        let v1_arr = buf32_from_slice(v1);
        let r = AflppCmpLogFnOperands { v0: v0_arr, v1: v1_arr, v0_len, v1_len, unused: [0u8; 6] };
        proof {
            assert(r.v0@ =~= v0@);
            assert(r.v1@ =~= v1@);
            assert(r.unused@ =~= Seq::new(6, |i: int| 0u8));
        }
        r
    }

    /// Record a routine comparison of two buffers of up to `CMPLOG_RTN_LEN`
    /// bytes, zero-padding each and recording its true length.
    pub fn new_padded(v0: &[u8], v1: &[u8]) -> (r: AflppCmpLogFnOperands)
        requires
            v0@.len() <= 32,
            v1@.len() <= 32,
        ensures
            r.v0@ == v0@ + zero_buf().take(32 - v0@.len() as int),
            r.v1@ == v1@ + zero_buf().take(32 - v1@.len() as int),
            r.v0_len == v0@.len(),
            r.v1_len == v1@.len(),
            r.unused@ == Seq::new(6, |i: int| 0u8),
    {
        let v0_len: u8 = v0.len() as u8;
        let v1_len: u8 = v1.len() as u8;
        let v0_arr = buf32_from_slice(v0);
        let v1_arr = buf32_from_slice(v1);
        let r = AflppCmpLogFnOperands { v0: v0_arr, v1: v1_arr, v0_len, v1_len, unused: [0u8; 6] };
        proof {
            assert(r.unused@ =~= Seq::new(6, |i: int| 0u8));
        }
        r
    }

    /// First argument buffer.
    pub fn v0(&self) -> (r: &[u8; 32])
        ensures
            r@ == self.v0@,
    {
        &self.v0
    }

    /// Length byte of the first buffer.
    pub fn v0_len(&self) -> (r: u8)
        ensures
            r == self.v0_len,
    {
        self.v0_len
    }

    /// Second argument buffer.
    pub fn v1(&self) -> (r: &[u8; 32])
        ensures
            r@ == self.v1@,
    {
        &self.v1
    }

    /// Length byte of the second buffer.
    pub fn v1_len(&self) -> (r: u8)
        ensures
            r == self.v1_len,
    {
        self.v1_len
    }

    /// Overwrite the first buffer with a full-size slice.
    pub fn set_v0(&mut self, v0: &[u8])
        requires
            v0@.len() == 32,
        ensures
            final(self).v0@ == v0@,
            final(self).v0_len == 32,
            final(self).v1 == old(self).v1,
            final(self).v1_len == old(self).v1_len,
            final(self).unused == old(self).unused,
    {
        self.v0_len = v0.len() as u8;
        let arr = buf32_from_slice(v0);
        self.v0 = arr;
        proof {
            assert(final(self).v0@ =~= v0@);
        }
    }

    /// Overwrite the second buffer with a full-size slice.
    pub fn set_v1(&mut self, v1: &[u8])
        requires
            v1@.len() == 32,
        ensures
            final(self).v1@ == v1@,
            final(self).v1_len == 32,
            final(self).v0 == old(self).v0,
            final(self).v0_len == old(self).v0_len,
            final(self).unused == old(self).unused,
    {
        self.v1_len = v1.len() as u8;
        let arr = buf32_from_slice(v1);
        self.v1 = arr;
        proof {
            assert(final(self).v1@ =~= v1@);
        }
    }
}

} // verus!
