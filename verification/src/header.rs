//! Per-site headers: the plain native header and the packed bit-field header
//! of the wire layout.

use vstd::prelude::*;

verus! {

/// The native per-site header: how often the site was hit this execution,
/// the width code of the recorded operands, and whether the site records an
/// instruction or a routine comparison.
#[derive(Clone, Copy, Debug, PartialEq, Eq, Structural)]
pub struct CmpLogHeader {
    /// Hit counter for the current execution.
    pub hits: u16,
    /// Width/format code of the recorded operands.
    pub shape: u8,
    /// `CMPLOG_KIND_INS` or `CMPLOG_KIND_RTN`.
    pub kind: u8,
}

impl CmpLogHeader {
    /// The all-zero header a site holds before its first hit.
    pub fn zeroed() -> (r: CmpLogHeader)
        ensures
            r == (CmpLogHeader { hits: 0, shape: 0, kind: 0 }),
    {
        CmpLogHeader { hits: 0, shape: 0, kind: 0 }
    }
}

impl Default for CmpLogHeader {
    /// Same as [`CmpLogHeader::zeroed`].
    fn default() -> (r: CmpLogHeader)
        ensures
            r == (CmpLogHeader { hits: 0, shape: 0, kind: 0 }),
    {
        CmpLogHeader { hits: 0, shape: 0, kind: 0 }
    }
}

/// Hit counter of a packed wire header: the low 6 bits.
pub open spec fn spec_wire_hits(raw: u16) -> u16 {
    raw & 0x3f
}

/// Shape code of a packed wire header: 5 bits starting at bit 6.
pub open spec fn spec_wire_shape(raw: u16) -> u8 {
    ((raw >> 6) & 0x1f) as u8
}

/// Kind of a packed wire header: bit 11.
pub open spec fn spec_wire_kind(raw: u16) -> u8 {
    ((raw >> 11) & 0x1) as u8
}

/// Attribute bits of a packed wire header: the top 4 bits.
pub open spec fn spec_wire_attribute(raw: u16) -> u8 {
    ((raw >> 12) & 0xf) as u8
}

/// The wire-layout per-site header: the same three values as
/// [`CmpLogHeader`], plus an attribute nibble, packed into one 16-bit
/// bit-field as the external instrumentation ABI prescribes. Low to high:
/// 6 bits of hit counter, 5 bits of shape code, 1 kind bit, 4 attribute bits.
#[derive(Clone, Copy, Debug, PartialEq, Eq, Structural)]
pub struct AflppCmpLogHeader {
    /// The packed bit-field.
    pub raw: u16,
}

impl AflppCmpLogHeader {
    /// Wrap an already-packed bit-field.
    pub fn new_with_raw_value(raw: u16) -> (r: AflppCmpLogHeader)
        ensures
            r.raw == raw,
    {
        AflppCmpLogHeader { raw }
    }

    /// Pack the four fields.
    pub fn new(hits: u16, shape: u8, kind: u8, attribute: u8) -> (r: AflppCmpLogHeader)
        requires
            hits < 64,
            shape < 32,
            kind < 2,
            attribute < 16,
        ensures
            spec_wire_hits(r.raw) == hits,
            spec_wire_shape(r.raw) == shape,
            spec_wire_kind(r.raw) == kind,
            spec_wire_attribute(r.raw) == attribute,
    {
        let raw: u16 = hits | ((shape as u16) << 6) | ((kind as u16) << 11) | ((attribute
            as u16) << 12);
        proof {
            let h = hits;
            let s = shape as u16;
            let k = kind as u16;
            let a = attribute as u16;
            assert(h < 64 && s < 32 && k < 2 && a < 16 ==> {
                let r = h | (s << 6) | (k << 11) | (a << 12);
                &&& r & 0x3f == h
                &&& (r >> 6) & 0x1f == s
                &&& (r >> 11) & 0x1 == k
                &&& (r >> 12) & 0xf == a
            }) by (bit_vector);
        }
        AflppCmpLogHeader { raw }
    }

    /// The hit counter field.
    pub fn hits(&self) -> (r: u16)
        ensures
            r == spec_wire_hits(self.raw),
            r < 64,
    {
        proof {
            let raw = self.raw;
            assert(raw & 0x3f < 64) by (bit_vector);
        }
        self.raw & 0x3f
    }

    /// The shape code field.
    pub fn shape(&self) -> (r: u8)
        ensures
            r == spec_wire_shape(self.raw),
            r < 32,
    {
        proof {
            let raw = self.raw;
            assert((raw >> 6) & 0x1f < 32) by (bit_vector);
        }
        ((self.raw >> 6) & 0x1f) as u8
    }

    /// The kind bit.
    pub fn type_(&self) -> (r: u8)
        ensures
            r == spec_wire_kind(self.raw),
            r < 2,
    {
        proof {
            let raw = self.raw;
            assert((raw >> 11) & 0x1 < 2) by (bit_vector);
        }
        ((self.raw >> 11) & 0x1) as u8
    }

    /// The attribute nibble.
    pub fn attribute(&self) -> (r: u8)
        ensures
            r == spec_wire_attribute(self.raw),
            r < 16,
    {
        proof {
            let raw = self.raw;
            assert((raw >> 12) & 0xf < 16) by (bit_vector);
        }
        ((self.raw >> 12) & 0xf) as u8
    }
}

impl Default for AflppCmpLogHeader {
    /// The all-zero packed header.
    fn default() -> (r: AflppCmpLogHeader)
        ensures
            r.raw == 0,
    {
        AflppCmpLogHeader { raw: 0 }
    }
}

} // verus!
