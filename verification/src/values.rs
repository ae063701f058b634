//! Decoded comparison values handed to the consumer, and the error type of
//! the map operations.

use vstd::prelude::*;
use crate::consts::CMPLOG_RTN_LEN;

verus! {

/// The two byte buffers of a routine comparison, tagged with the byte count
/// that was recorded for each.
#[derive(Clone, Copy, Debug, PartialEq, Eq)]
pub struct CmplogBytes {
    /// The recorded bytes, zero-padded to the fixed buffer size.
    pub buf: [u8; 32],
    /// How many of the bytes carry data.
    pub len: u8,
}

impl CmplogBytes {
    /// Tag a fixed-size buffer with its data length.
    pub fn from_buf_and_len(buf: [u8; 32], len: u8) -> (r: CmplogBytes)
        ensures
            r.buf == buf,
            r.len == len,
    {
        CmplogBytes { buf, len }
    }
}

/// One decoded comparison: the two operands of an instruction comparison at
/// their recorded width together with the recorded equality flag, or the two
/// byte buffers of a routine comparison.
#[derive(Clone, Copy, Debug, PartialEq, Eq)]
pub enum CmpValues {
    /// A 1-byte comparison: both operands and the equality flag.
    U8((u8, u8, bool)),
    /// A 2-byte comparison: both operands and the equality flag.
    U16((u16, u16, bool)),
    /// A 4-byte comparison: both operands and the equality flag.
    U32((u32, u32, bool)),
    /// An 8-byte comparison: both operands and the equality flag.
    U64((u64, u64, bool)),
    /// A routine comparison: the two argument buffers.
    Bytes((CmplogBytes, CmplogBytes)),
}

/// What a map operation can report instead of a result.
#[derive(Clone, Copy, Debug, PartialEq, Eq)]
pub enum CmpLogError {
    /// A header carried a shape code outside the recognized set: the
    /// instrumentation contract was broken and the recorded data cannot be
    /// trusted.
    InvalidShape(u8),
}

/// `CMPLOG_RTN_LEN` zero bytes: the contents of an untouched routine buffer.
pub open spec fn zero_buf() -> Seq<u8> {
    Seq::new(CMPLOG_RTN_LEN as nat, |i: int| 0u8)
}

} // verus!
