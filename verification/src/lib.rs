//! Comparison-trace maps for coverage-guided fuzzing.
//!
//! A comparison map records, per execution of an instrumented target, the
//! concrete operand values seen at each comparison site: either the two sides
//! of a comparison instruction, or the two byte buffers handed to a comparison
//! routine such as a memory compare. A consumer then decodes the recorded
//! values slot by slot to drive input-to-state mutations.
//!
//! Two layouts are provided behind one trait, [`cmp_map::CmpMap`]:
//! [`compact::CmpLogMap`], a plain native layout, and
//! [`wire::AflppCmpLogMap`], a byte-exact wire layout shared with the AFL++
//! instrumentation ABI, including a fixed-size binary image for transport.

pub mod cmp_map;
pub mod compact;
pub mod consts;
pub mod header;
pub mod records;
pub mod values;
pub mod wire;
pub mod wire_bytes;

pub use cmp_map::CmpMap;
pub use compact::CmpLogMap;
pub use compact::CmpLogVals;
pub use consts::CMPLOG_KIND_INS;
pub use consts::CMPLOG_KIND_RTN;
pub use consts::CMPLOG_MAP_H;
pub use consts::CMPLOG_MAP_RTN_EXTENDED_H;
pub use consts::CMPLOG_MAP_RTN_H;
pub use consts::CMPLOG_MAP_SIZE;
pub use consts::CMPLOG_MAP_W;
pub use consts::CMPLOG_RTN_LEN;
pub use header::AflppCmpLogHeader;
pub use header::CmpLogHeader;
pub use records::AflppCmpLogFnOperands;
pub use records::AflppCmpLogOperands;
pub use records::CmpLogInstruction;
pub use records::CmpLogRoutine;
pub use values::CmpLogError;
pub use values::CmplogBytes;
pub use values::CmpValues;
pub use wire::AflppCmpLogMap;
pub use wire::AflppCmpLogVals;
pub use wire_bytes::AFLPP_MAP_BYTES;
