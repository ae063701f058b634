//! Layout constants shared by the producer and the consumer of a map.
//!
//! These are part of the binary contract: changing any of them is a breaking
//! layout change. The per-kind slot capacities are derived from a fixed
//! payload byte budget per site divided by the per-slot record size of each
//! representation.

use vstd::prelude::*;

verus! {

/// Number of comparison sites in a map.
pub const CMPLOG_MAP_W: usize = 65536;

/// Slot capacity of an instruction site.
pub const CMPLOG_MAP_H: usize = 32;

/// Total instruction slot count of a map.
pub const CMPLOG_MAP_SIZE: usize = CMPLOG_MAP_W * CMPLOG_MAP_H;

/// Bytes kept of each routine argument.
pub const CMPLOG_RTN_LEN: usize = 32;

/// Slot capacity of a routine site in the native layout: the instruction
/// payload budget (`CMPLOG_MAP_H` records of 24 bytes) divided by the 64-byte
/// routine record.
pub const CMPLOG_MAP_RTN_H: usize = CMPLOG_MAP_H * 24 / 64;

/// Routine record count per site in the wire layout: the operand payload
/// budget (`CMPLOG_MAP_H` records of 72 bytes) divided by the 72-byte routine
/// record.
pub const CMPLOG_MAP_RTN_EXTENDED_H: usize = CMPLOG_MAP_H * 72 / 72;

/// Header kind of an instruction site.
pub const CMPLOG_KIND_INS: u8 = 0;

/// Header kind of a routine site.
pub const CMPLOG_KIND_RTN: u8 = 1;

/// The shape codes whose operand width can be decoded: `2^shape` bytes, for
/// widths 1, 2, 4 and 8.
pub open spec fn shape_supported(shape: u8) -> bool {
    shape == 0 || shape == 1 || shape == 3 || shape == 7
}

/// The shape codes a header may legitimately carry. Widths 16, 32 and
/// 64 bytes (shapes 15, 31 and 63) are structurally present but unsupported
/// for decode; any other value is an instrumentation-contract violation.
pub open spec fn shape_recognized(shape: u8) -> bool {
    shape_supported(shape) || shape == 15 || shape == 31 || shape == 63
}

} // verus!
