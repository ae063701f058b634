//! The wire-layout comparison map, byte-compatible with the AFL++
//! instrumentation ABI: packed bit-field headers and extended 72-byte
//! records, read as either operand records or routine-argument records by
//! the site's recorded kind.

use vstd::prelude::*;
use crate::cmp_map::CmpMap;
use crate::consts::{
    shape_recognized, CMPLOG_KIND_INS, CMPLOG_KIND_RTN, CMPLOG_MAP_H, CMPLOG_MAP_RTN_EXTENDED_H,
    CMPLOG_MAP_RTN_H, CMPLOG_MAP_W,
};
use crate::header::{
    spec_wire_hits, spec_wire_kind, spec_wire_shape, AflppCmpLogHeader,
};
use crate::records::{
    fn_operands_zeroed, operands_zeroed, AflppCmpLogFnOperands, AflppCmpLogOperands,
};
use crate::values::{zero_buf, CmpLogError, CmplogBytes, CmpValues};

verus! {

/// The payload region of one site of the wire map, read according to the
/// site's kind bit: operand records, or the same bytes as routine-argument
/// records.
#[derive(Clone, Debug)]
pub enum AflppCmpLogVals {
    /// Instruction payload: `CMPLOG_MAP_H` operand records.
    Operands(Vec<AflppCmpLogOperands>),
    /// Routine payload: `CMPLOG_MAP_RTN_EXTENDED_H` byte-pair records.
    FnOperands(Vec<AflppCmpLogFnOperands>),
}

impl AflppCmpLogVals {
    /// Read the payload as operand records; the site must currently hold
    /// that representation.
    pub fn operands(&self) -> (r: &Vec<AflppCmpLogOperands>)
        requires
            self is Operands,
        ensures
            r@ == self->Operands_0@,
    {
        match self {
            AflppCmpLogVals::Operands(v) => v,
            AflppCmpLogVals::FnOperands(_) => {
                proof {
                    assert(false);
                }
                vstd::pervasive::unreached()
            },
        }
    }

    /// Mutably read the payload as operand records; the site must
    /// currently hold that representation.
    pub fn operands_mut(&mut self) -> (r: &mut Vec<AflppCmpLogOperands>)
        requires
            *old(self) is Operands,
        ensures
            *r == (*old(self))->Operands_0,
            *final(self) == AflppCmpLogVals::Operands(*final(r)),
    {
        match self {
            AflppCmpLogVals::Operands(v) => v,
            AflppCmpLogVals::FnOperands(_) => {
                proof {
                    assert(false);
                }
                vstd::pervasive::unreached()
            },
        }
    }

    /// Mutably read the payload as routine-argument records; the site must
    /// currently hold that representation.
    pub fn fn_operands_mut(&mut self) -> (r: &mut Vec<AflppCmpLogFnOperands>)
        requires
            *old(self) is FnOperands,
        ensures
            *r == (*old(self))->FnOperands_0,
            *final(self) == AflppCmpLogVals::FnOperands(*final(r)),
    {
        match self {
            AflppCmpLogVals::FnOperands(v) => v,
            AflppCmpLogVals::Operands(_) => {
                proof {
                    assert(false);
                }
                vstd::pervasive::unreached()
            },
        }
    }

    /// Read the payload as routine-argument records; the site must
    /// currently hold that representation.
    pub fn fn_operands(&self) -> (r: &Vec<AflppCmpLogFnOperands>)
        requires
            self is FnOperands,
        ensures
            r@ == self->FnOperands_0@,
    {
        match self {
            AflppCmpLogVals::FnOperands(v) => v,
            AflppCmpLogVals::Operands(_) => {
                proof {
                    assert(false);
                }
                vstd::pervasive::unreached()
            },
        }
    }
}

/// What a wire operand record decodes to under a shape code: the low limbs
/// truncated to the coded width. The wire encoding carries no equality
/// flag, so it decodes as `false`; the recognized wide widths carry no
/// value. Unrecognized codes are left unspecified here; executable decoding
/// treats them as fatal.
pub open spec fn spec_decode_wire_instruction(shape: u8, rec: AflppCmpLogOperands) -> Option<
    CmpValues,
> {
    if shape == 0 {
        Some(CmpValues::U8(((rec.v0 as u8), (rec.v1 as u8), false)))
    } else if shape == 1 {
        Some(CmpValues::U16(((rec.v0 as u16), (rec.v1 as u16), false)))
    } else if shape == 3 {
        Some(CmpValues::U32(((rec.v0 as u32), (rec.v1 as u32), false)))
    } else if shape == 7 {
        Some(CmpValues::U64((rec.v0, rec.v1, false)))
    } else if shape == 15 || shape == 31 || shape == 63 {
        None
    } else {
        arbitrary()
    }
}

/// What a wire routine record decodes to: both buffers, each length-tagged
/// with its length byte after the reserved top bit is masked off.
pub open spec fn spec_decode_wire_routine(rec: AflppCmpLogFnOperands) -> Option<CmpValues> {
    Some(
        CmpValues::Bytes(
            (
                CmplogBytes { buf: rec.v0, len: rec.v0_len & 0x7f },
                CmplogBytes { buf: rec.v1, len: rec.v1_len & 0x7f },
            ),
        ),
    )
}

/// Whether a site's payload holds its full record count for its current
/// representation.
pub open spec fn site_full(v: AflppCmpLogVals) -> bool {
    match v {
        AflppCmpLogVals::Operands(ops) => ops@.len() == CMPLOG_MAP_H,
        AflppCmpLogVals::FnOperands(fops) => fops@.len() == CMPLOG_MAP_RTN_EXTENDED_H,
    }
}

/// A comparison map in the wire layout.
#[derive(Clone, Debug)]
pub struct AflppCmpLogMap {
    headers: Vec<AflppCmpLogHeader>,
    vals: Vec<AflppCmpLogVals>,
}

impl AflppCmpLogMap {
    /// The packed headers, one per site.
    pub closed spec fn headers_view(&self) -> Seq<AflppCmpLogHeader> {
        self.headers@
    }

    /// The payload regions, one per site.
    pub closed spec fn vals_view(&self) -> Seq<AflppCmpLogVals> {
        self.vals@
    }

    /// Recorded kind bit of a site.
    pub open spec fn kind_of(&self, site: int) -> u8 {
        spec_wire_kind(self.headers_view()[site].raw)
    }

    /// Recorded shape code of a site.
    pub open spec fn shape_of(&self, site: int) -> u8 {
        spec_wire_shape(self.headers_view()[site].raw)
    }

    /// Whether a site's payload is currently held as operand records.
    pub open spec fn tag_ins(&self, site: int) -> bool {
        self.vals_view()[site] is Operands
    }

    /// Operand record of a slot.
    pub open spec fn op_at(&self, site: int, slot: int) -> AflppCmpLogOperands {
        self.vals_view()[site]->Operands_0@[slot]
    }

    /// Routine-argument record of a slot.
    pub open spec fn fn_at(&self, site: int, slot: int) -> AflppCmpLogFnOperands {
        self.vals_view()[site]->FnOperands_0@[slot]
    }

    /// Whether every site's payload representation agrees with its header's
    /// kind bit. Fresh and freshly-deserialized maps are coherent, and
    /// recording keeps them so; `reset` leaves stale payload tags behind,
    /// which the next recording at a site repairs.
    pub open spec fn coherent(&self) -> bool {
        forall|s: int|
            0 <= s < CMPLOG_MAP_W ==> ((self.kind_of(s) == CMPLOG_KIND_INS) <==> self.tag_ins(s))
    }

    /// What the structural invariant guarantees of the model: full-size
    /// tables, full-size payload regions, and payload tags that agree with
    /// the kind bit wherever a site reports hits.
    pub proof fn lemma_wf_exposed(&self)
        requires
            self.wf(),
        ensures
            self.headers_view().len() == CMPLOG_MAP_W,
            self.vals_view().len() == CMPLOG_MAP_W,
            forall|s: int| 0 <= s < CMPLOG_MAP_W ==> site_full(#[trigger] self.vals_view()[s]),
            forall|s: int|
                0 <= s < CMPLOG_MAP_W && self.hits_of(s) > 0 ==> ((self.kind_of(s)
                    == CMPLOG_KIND_INS) <==> self.tag_ins(s)),
    {
        assert forall|s: int| 0 <= s < CMPLOG_MAP_W implies site_full(
            #[trigger] self.vals_view()[s],
        ) by {
            assert(match self.vals@[s] {
                AflppCmpLogVals::Operands(v) => v@.len() == CMPLOG_MAP_H,
                AflppCmpLogVals::FnOperands(v) => v@.len() == CMPLOG_MAP_RTN_EXTENDED_H,
            });
        }
    }

    /// Assemble a map from its two tables; the model is exactly the tables'
    /// contents.
    pub(crate) fn from_parts(headers: Vec<AflppCmpLogHeader>, vals: Vec<AflppCmpLogVals>) -> (r:
        AflppCmpLogMap)
        requires
            headers@.len() == CMPLOG_MAP_W,
            vals@.len() == CMPLOG_MAP_W,
            forall|s: int| 0 <= s < CMPLOG_MAP_W ==> site_full(#[trigger] vals@[s]),
            forall|s: int|
                0 <= s < CMPLOG_MAP_W ==> ((spec_wire_kind((#[trigger] headers@[s]).raw)
                    == CMPLOG_KIND_INS) <==> vals@[s] is Operands),
        ensures
            r.wf(),
            r.coherent(),
            r.headers_view() == headers@,
            r.vals_view() == vals@,
    {
        let r = AflppCmpLogMap { headers, vals };
        proof {
            assert forall|s: int| 0 <= s < CMPLOG_MAP_W implies match #[trigger] r.vals@[s] {
                AflppCmpLogVals::Operands(v) => v@.len() == CMPLOG_MAP_H,
                AflppCmpLogVals::FnOperands(v) => v@.len() == CMPLOG_MAP_RTN_EXTENDED_H,
            } by {
                assert(site_full(r.vals@[s]));
            }
        }
        r
    }
}

/// A fresh all-zero operand payload.
fn zeroed_wire_ops() -> (v: Vec<AflppCmpLogOperands>)
    ensures
        v@.len() == CMPLOG_MAP_H,
        forall|j: int| 0 <= j < CMPLOG_MAP_H ==> operands_zeroed(#[trigger] v@[j]),
{
    let mut v: Vec<AflppCmpLogOperands> = Vec::new();
    let mut i: usize = 0;
    while i < CMPLOG_MAP_H
        invariant
            i <= CMPLOG_MAP_H,
            v@.len() == i,
            forall|j: int| 0 <= j < i ==> operands_zeroed(#[trigger] v@[j]),
        decreases CMPLOG_MAP_H - i,
    {
        v.push(AflppCmpLogOperands::new(0, 0));
        i = i + 1;
    }
    v
}

/// A fresh all-zero routine payload.
fn zeroed_wire_fn_ops() -> (v: Vec<AflppCmpLogFnOperands>)
    ensures
        v@.len() == CMPLOG_MAP_RTN_EXTENDED_H,
        forall|j: int| 0 <= j < CMPLOG_MAP_RTN_EXTENDED_H ==> fn_operands_zeroed(#[trigger] v@[j]),
{
    let mut v: Vec<AflppCmpLogFnOperands> = Vec::new();
    let mut i: usize = 0;
    while i < CMPLOG_MAP_RTN_EXTENDED_H
        invariant
            i <= CMPLOG_MAP_RTN_EXTENDED_H,
            v@.len() == i,
            forall|j: int| 0 <= j < i ==> fn_operands_zeroed(#[trigger] v@[j]),
        decreases CMPLOG_MAP_RTN_EXTENDED_H - i,
    {
        let rec = AflppCmpLogFnOperands {
            v0: [0u8; 32],
            v1: [0u8; 32],
            v0_len: 0,
            v1_len: 0,
            unused: [0u8; 6],
        };
        proof {
            assert(rec.v0@ =~= zero_buf());
            assert(rec.v1@ =~= zero_buf());
            assert(rec.unused@ =~= Seq::new(6, |i: int| 0u8));
        }
        v.push(rec);
        i = i + 1;
    }
    v
}

impl AflppCmpLogMap {
    /// A fresh map: every header zero, every payload an all-zero operand
    /// region.
    pub fn new() -> (r: AflppCmpLogMap)
        ensures
            r.wf(),
            r.cleared(),
            r.coherent(),
            forall|s: int|
                0 <= s < CMPLOG_MAP_W ==> r.tag_ins(s) && forall|j: int|
                    0 <= j < CMPLOG_MAP_H ==> operands_zeroed(#[trigger] r.op_at(s, j)),
    {
        let mut headers: Vec<AflppCmpLogHeader> = Vec::new();
        let mut i: usize = 0;
        while i < CMPLOG_MAP_W
            invariant
                i <= CMPLOG_MAP_W,
                headers@.len() == i,
                forall|j: int| 0 <= j < i ==> headers@[j] == (AflppCmpLogHeader { raw: 0 }),
            decreases CMPLOG_MAP_W - i,
        {
            headers.push(AflppCmpLogHeader::new_with_raw_value(0));
            i = i + 1;
        }
        let mut vals: Vec<AflppCmpLogVals> = Vec::new();
        let mut i: usize = 0;
        while i < CMPLOG_MAP_W
            invariant
                i <= CMPLOG_MAP_W,
                vals@.len() == i,
                forall|s: int|
                    0 <= s < i ==> (#[trigger] vals@[s]) is Operands && vals@[s]->Operands_0@.len()
                        == CMPLOG_MAP_H && forall|j: int|
                        0 <= j < CMPLOG_MAP_H ==> operands_zeroed(
                            #[trigger] vals@[s]->Operands_0@[j],
                        ),
            decreases CMPLOG_MAP_W - i,
        {
            vals.push(AflppCmpLogVals::Operands(zeroed_wire_ops()));
            i = i + 1;
        }
        let r = AflppCmpLogMap { headers, vals };
        proof {
            assert(r.cleared()) by {
                assert(r.headers_view() =~= Seq::new(
                    CMPLOG_MAP_W as nat,
                    |i: int| AflppCmpLogHeader { raw: 0 },
                ));
            }
            assert(spec_wire_hits(0) == 0) by (bit_vector);
            assert(spec_wire_kind(0) == 0) by (bit_vector);
        }
        r
    }

    /// A fresh map on the heap. The wire layout is too large to be passed
    /// around by value comfortably, so this is the intended way to obtain
    /// one.
    pub fn boxed() -> (r: Box<AflppCmpLogMap>)
        ensures
            r.wf(),
            r.cleared(),
            r.coherent(),
            forall|s: int|
                0 <= s < CMPLOG_MAP_W ==> r.tag_ins(s) && forall|j: int|
                    0 <= j < CMPLOG_MAP_H ==> operands_zeroed(#[trigger] r.op_at(s, j)),
    {
        let m = AflppCmpLogMap::new();
        let r = Box::new(m);
        proof {
            assert forall|s: int| 0 <= s < CMPLOG_MAP_W implies r.tag_ins(s) && forall|j: int|
                0 <= j < CMPLOG_MAP_H ==> operands_zeroed(#[trigger] r.op_at(s, j)) by {
                assert(m.tag_ins(s));
                assert forall|j: int| 0 <= j < CMPLOG_MAP_H implies operands_zeroed(
                    #[trigger] r.op_at(s, j),
                ) by {
                    assert(operands_zeroed(m.op_at(s, j)));
                }
            }
        }
        r
    }

    /// The headers, one per site.
    pub fn headers(&self) -> (r: &Vec<AflppCmpLogHeader>)
        ensures
            r@ == self.headers_view(),
    {
        &self.headers
    }

    /// The payload regions, one per site.
    pub fn values(&self) -> (r: &Vec<AflppCmpLogVals>)
        ensures
            r@ == self.vals_view(),
    {
        &self.vals
    }

    /// Mutably reference the headers. The structural invariant survives any
    /// header values, but a site whose kind bit is made to disagree with
    /// its payload representation must report no hits.
    pub fn headers_mut(&mut self) -> (r: &mut Vec<AflppCmpLogHeader>)
        ensures
            r@ == old(self).headers_view(),
            final(self).headers_view() == final(r)@,
            final(self).vals_view() == old(self).vals_view(),
    {
        &mut self.headers
    }

    /// Mutably reference the payload regions.
    pub fn values_mut(&mut self) -> (r: &mut Vec<AflppCmpLogVals>)
        ensures
            r@ == old(self).vals_view(),
            final(self).vals_view() == final(r)@,
            final(self).headers_view() == old(self).headers_view(),
    {
        &mut self.vals
    }

    /// Decode one slot of a site without trusting the header: a shape code
    /// outside the recognized set is reported as the fatal
    /// [`CmpLogError::InvalidShape`] instead of a value.
    pub fn checked_values_of(&self, idx: usize, execution: usize) -> (r: Result<
        Option<CmpValues>,
        CmpLogError,
    >)
        requires
            self.wf(),
            (idx as nat) < self.sites(),
            (execution as nat) < self.hits_of(idx as int),
            (execution as nat) < self.capacity_of(idx as int),
        ensures
            self.decodable(idx as int) ==> r == Ok::<_, CmpLogError>(
                self.decoded(idx as int, execution as int),
            ),
            !self.decodable(idx as int) ==> r == Err::<Option<CmpValues>, _>(
                CmpLogError::InvalidShape(self.shape_of(idx as int)),
            ),
    {
        let h = self.headers[idx];
        let shape = h.shape();
        if h.type_() == CMPLOG_KIND_INS && !(shape == 0 || shape == 1 || shape == 3 || shape == 7
            || shape == 15 || shape == 31 || shape == 63) {
            Err(CmpLogError::InvalidShape(shape))
        } else {
            Ok(self.values_of(idx, execution))
        }
    }

    /// Record one instruction comparison at a site: operands zero-extended
    /// to 64 bits and the width code (at most five bits in this layout).
    ///
    /// The first hit of a site after a reset or a kind change starts it
    /// afresh over a zeroed operand payload; later hits advance the hit
    /// counter (it saturates at the six-bit maximum rather than wraps) and
    /// overwrite slots in a ring of `CMPLOG_MAP_H`.
    pub fn record_instruction(&mut self, site: usize, shape: u8, v0: u64, v1: u64)
        requires
            old(self).wf(),
            (site as nat) < old(self).sites(),
            shape < 32,
        ensures
            final(self).wf(),
            forall|s: int|
                0 <= s < CMPLOG_MAP_W && s != site ==> final(self).headers_view()[s] == old(
                    self,
                ).headers_view()[s],
            forall|s: int|
                0 <= s < CMPLOG_MAP_W && s != site ==> final(self).vals_view()[s] == old(
                    self,
                ).vals_view()[s],
            final(self).kind_of(site as int) == CMPLOG_KIND_INS,
            final(self).shape_of(site as int) == shape,
            final(self).tag_ins(site as int),
            ({
                let continuing = old(self).kind_of(site as int) == CMPLOG_KIND_INS && old(
                    self,
                ).hits_of(site as int) > 0;
                let slot = if continuing {
                    old(self).hits_of(site as int) as int % (CMPLOG_MAP_H as int)
                } else {
                    0int
                };
                &&& final(self).hits_of(site as int) == if continuing {
                    if old(self).hits_of(site as int) < 63 {
                        old(self).hits_of(site as int) + 1
                    } else {
                        old(self).hits_of(site as int)
                    }
                } else {
                    1nat
                }
                &&& final(self).op_at(site as int, slot).v0 == v0
                &&& final(self).op_at(site as int, slot).v1 == v1
                &&& final(self).op_at(site as int, slot).v0_128 == 0
                &&& final(self).op_at(site as int, slot).v1_128 == 0
                &&& forall|j: int|
                    0 <= j < CMPLOG_MAP_H && j != slot ==> if continuing {
                        final(self).op_at(site as int, j) == old(self).op_at(site as int, j)
                    } else {
                        operands_zeroed(final(self).op_at(site as int, j))
                    }
            }),
    {
        let rec = AflppCmpLogOperands::new(v0, v1);
        let h = self.headers[site];
        let hits = h.hits();
        if h.type_() == CMPLOG_KIND_INS && hits > 0 {
            let slot: usize = (hits as usize) % CMPLOG_MAP_H;
            let new_hits: u16 = if hits < 63 {
                hits + 1
            } else {
                hits
            };
            self.headers[site] = AflppCmpLogHeader::new(new_hits, shape, CMPLOG_KIND_INS, 0);
            match &mut self.vals[site] {
                AflppCmpLogVals::Operands(ops) => {
                    ops[slot] = rec;
                },
                AflppCmpLogVals::FnOperands(_) => {
                    proof {
                        assert(false);
                    }
                },
            }
        } else {
            self.headers[site] = AflppCmpLogHeader::new(1, shape, CMPLOG_KIND_INS, 0);
            let mut ops = zeroed_wire_ops();
            ops[0] = rec;
            self.vals[site] = AflppCmpLogVals::Operands(ops);
        }
    }

    /// Record one routine comparison at a site: the two argument buffers,
    /// zero-padded to the fixed `CMPLOG_RTN_LEN` bytes, with their true
    /// lengths in the length bytes.
    ///
    /// The first hit of a site after a reset or a kind change starts it
    /// afresh over a zeroed routine payload; later hits advance the hit
    /// counter (it saturates at the six-bit maximum rather than wraps) and
    /// overwrite slots in a ring of `CMPLOG_MAP_RTN_H`, the usable routine
    /// capacity.
    pub fn record_routine(&mut self, site: usize, b0: &[u8], b1: &[u8])
        requires
            old(self).wf(),
            (site as nat) < old(self).sites(),
            b0@.len() <= 32,
            b1@.len() <= 32,
        ensures
            final(self).wf(),
            forall|s: int|
                0 <= s < CMPLOG_MAP_W && s != site ==> final(self).headers_view()[s] == old(
                    self,
                ).headers_view()[s],
            forall|s: int|
                0 <= s < CMPLOG_MAP_W && s != site ==> final(self).vals_view()[s] == old(
                    self,
                ).vals_view()[s],
            final(self).kind_of(site as int) == CMPLOG_KIND_RTN,
            final(self).shape_of(site as int) == 0,
            !final(self).tag_ins(site as int),
            ({
                let continuing = old(self).kind_of(site as int) != CMPLOG_KIND_INS && old(
                    self,
                ).hits_of(site as int) > 0;
                let slot = if continuing {
                    old(self).hits_of(site as int) as int % (CMPLOG_MAP_RTN_H as int)
                } else {
                    0int
                };
                &&& final(self).hits_of(site as int) == if continuing {
                    if old(self).hits_of(site as int) < 63 {
                        old(self).hits_of(site as int) + 1
                    } else {
                        old(self).hits_of(site as int)
                    }
                } else {
                    1nat
                }
                &&& final(self).fn_at(site as int, slot).v0@ == b0@ + zero_buf().take(
                    32 - b0@.len() as int,
                )
                &&& final(self).fn_at(site as int, slot).v1@ == b1@ + zero_buf().take(
                    32 - b1@.len() as int,
                )
                &&& final(self).fn_at(site as int, slot).v0_len == b0@.len()
                &&& final(self).fn_at(site as int, slot).v1_len == b1@.len()
                &&& forall|j: int|
                    0 <= j < CMPLOG_MAP_RTN_EXTENDED_H && j != slot ==> if continuing {
                        final(self).fn_at(site as int, j) == old(self).fn_at(site as int, j)
                    } else {
                        fn_operands_zeroed(final(self).fn_at(site as int, j))
                    }
            }),
    {
        let rec = AflppCmpLogFnOperands::new_padded(b0, b1);
        let h = self.headers[site];
        let hits = h.hits();
        if h.type_() != CMPLOG_KIND_INS && hits > 0 {
            let slot: usize = (hits as usize) % CMPLOG_MAP_RTN_H;
            let new_hits: u16 = if hits < 63 {
                hits + 1
            } else {
                hits
            };
            self.headers[site] = AflppCmpLogHeader::new(new_hits, 0, CMPLOG_KIND_RTN, 0);
            match &mut self.vals[site] {
                AflppCmpLogVals::FnOperands(fops) => {
                    fops[slot] = rec;
                },
                AflppCmpLogVals::Operands(_) => {
                    proof {
                        assert(false);
                    }
                },
            }
        } else {
            self.headers[site] = AflppCmpLogHeader::new(1, 0, CMPLOG_KIND_RTN, 0);
            let mut fops = zeroed_wire_fn_ops();
            fops[0] = rec;
            self.vals[site] = AflppCmpLogVals::FnOperands(fops);
        }
    }
}

/// Clearing a wire map is idempotent: a map that was reset once and a map
/// that was reset again from it are observably identical — same headers,
/// same payload store.
///
/// `once` stands for the map after one reset, `twice` for the map after a
/// further reset; the premises are exactly what `reset` ensures of each
/// step.
pub proof fn lemma_reset_idempotent(once: &AflppCmpLogMap, twice: &AflppCmpLogMap)
    requires
        once.cleared(),
        twice.cleared(),
        twice.same_payload(once),
    ensures
        twice.headers_view() == once.headers_view(),
        twice.vals_view() == once.vals_view(),
{
}

/// The length-mask law of the wire layout: whatever length byte a routine
/// record carries, the decoded length is that byte with the reserved top
/// bit masked off.
pub proof fn lemma_length_mask(m: &AflppCmpLogMap, site: int, slot: int)
    requires
        m.wf(),
        0 <= site < m.sites(),
        0 <= slot < m.hits_of(site),
        0 <= slot < m.capacity_of(site),
        m.kind_of(site) != CMPLOG_KIND_INS,
    ensures
        m.decoded(site, slot) == Some(
            CmpValues::Bytes(
                (
                    CmplogBytes { buf: m.fn_at(site, slot).v0, len: m.fn_at(site, slot).v0_len & 0x7f },
                    CmplogBytes { buf: m.fn_at(site, slot).v1, len: m.fn_at(site, slot).v1_len & 0x7f },
                ),
            ),
        ),
{
}

impl Default for AflppCmpLogMap {
    /// Same as [`AflppCmpLogMap::new`].
    fn default() -> (r: AflppCmpLogMap)
        ensures
            r.wf(),
            r.cleared(),
    {
        AflppCmpLogMap::new()
    }
}

impl CmpMap for AflppCmpLogMap {
    closed spec fn wf(&self) -> bool {
        &&& self.headers@.len() == CMPLOG_MAP_W
        &&& self.vals@.len() == CMPLOG_MAP_W
        &&& forall|s: int|
            0 <= s < CMPLOG_MAP_W ==> match #[trigger] self.vals@[s] {
                AflppCmpLogVals::Operands(v) => v@.len() == CMPLOG_MAP_H,
                AflppCmpLogVals::FnOperands(v) => v@.len() == CMPLOG_MAP_RTN_EXTENDED_H,
            }
        &&& forall|s: int|
            0 <= s < CMPLOG_MAP_W && spec_wire_hits((#[trigger] self.headers@[s]).raw) > 0 ==> ((
            spec_wire_kind(self.headers@[s].raw) == CMPLOG_KIND_INS) <==> self.vals@[s] is Operands)
    }

    open spec fn sites(&self) -> nat {
        CMPLOG_MAP_W as nat
    }

    open spec fn hits_of(&self, site: int) -> nat {
        spec_wire_hits(self.headers_view()[site].raw) as nat
    }

    open spec fn capacity_of(&self, site: int) -> nat {
        if self.kind_of(site) == CMPLOG_KIND_INS {
            CMPLOG_MAP_H as nat
        } else {
            CMPLOG_MAP_RTN_H as nat
        }
    }

    open spec fn decodable(&self, site: int) -> bool {
        self.kind_of(site) == CMPLOG_KIND_INS ==> shape_recognized(self.shape_of(site))
    }

    open spec fn wide_at(&self, site: int) -> bool {
        &&& self.kind_of(site) == CMPLOG_KIND_INS
        &&& (self.shape_of(site) == 15 || self.shape_of(site) == 31 || self.shape_of(site) == 63)
    }

    open spec fn decoded(&self, site: int, slot: int) -> Option<CmpValues> {
        if self.kind_of(site) == CMPLOG_KIND_INS {
            spec_decode_wire_instruction(self.shape_of(site), self.op_at(site, slot))
        } else {
            spec_decode_wire_routine(self.fn_at(site, slot))
        }
    }

    open spec fn cleared(&self) -> bool {
        self.headers_view() == Seq::new(CMPLOG_MAP_W as nat, |i: int| AflppCmpLogHeader { raw: 0 })
    }

    closed spec fn same_payload(&self, other: &Self) -> bool {
        self.vals == other.vals
    }

    proof fn lemma_cleared_no_hits(&self) {
        assert forall|site: int| 0 <= site < self.sites() implies self.hits_of(site) == 0 by {
            assert(self.headers_view()[site] == AflppCmpLogHeader { raw: 0 });
            assert(spec_wire_hits(0) == 0) by (bit_vector);
        }
    }

    fn len(&self) -> (n: usize) {
        CMPLOG_MAP_W
    }

    fn executions_for(&self, idx: usize) -> (n: usize) {
        self.headers[idx].hits() as usize
    }

    fn usable_executions_for(&self, idx: usize) -> (n: usize) {
        if self.headers[idx].type_() == CMPLOG_KIND_INS {
            if self.executions_for(idx) < CMPLOG_MAP_H {
                self.executions_for(idx)
            } else {
                CMPLOG_MAP_H
            }
        } else if self.executions_for(idx) < CMPLOG_MAP_RTN_H {
            self.executions_for(idx)
        } else {
            CMPLOG_MAP_RTN_H
        }
    }

    fn values_of(&self, idx: usize, execution: usize) -> (r: Option<CmpValues>) {
        let header = self.headers[idx];
        if header.type_() == CMPLOG_KIND_INS {
            let shape = header.shape();
            match &self.vals[idx] {
                AflppCmpLogVals::Operands(ops) => {
                    let rec = ops[execution];
                    match shape {
                        0 => Some(
                            CmpValues::U8(
                                (
                                    #[verifier::truncate]
                                    (rec.v0 as u8),
                                    #[verifier::truncate]
                                    (rec.v1 as u8),
                                    false,
                                ),
                            ),
                        ),
                        1 => Some(
                            CmpValues::U16(
                                (
                                    #[verifier::truncate]
                                    (rec.v0 as u16),
                                    #[verifier::truncate]
                                    (rec.v1 as u16),
                                    false,
                                ),
                            ),
                        ),
                        3 => Some(
                            CmpValues::U32(
                                (
                                    #[verifier::truncate]
                                    (rec.v0 as u32),
                                    #[verifier::truncate]
                                    (rec.v1 as u32),
                                    false,
                                ),
                            ),
                        ),
                        7 => Some(CmpValues::U64((rec.v0, rec.v1, false))),
                        15 | 31 | 63 => None,
                        _ => {
                            proof {
                                assert(false);
                            }
                            None
                        },
                    }
                },
                AflppCmpLogVals::FnOperands(_) => {
                    proof {
                        assert(false);
                    }
                    None
                },
            }
        } else {
            match &self.vals[idx] {
                AflppCmpLogVals::FnOperands(fops) => {
                    let rec = fops[execution];
                    let v0_len = rec.v0_len & 0x7f;
                    let v1_len = rec.v1_len & 0x7f;
                    Some(
                        CmpValues::Bytes(
                            (
                                CmplogBytes::from_buf_and_len(rec.v0, v0_len),
                                CmplogBytes::from_buf_and_len(rec.v1, v1_len),
                            ),
                        ),
                    )
                },
                AflppCmpLogVals::Operands(_) => {
                    proof {
                        assert(false);
                    }
                    None
                },
            }
        }
    }

    fn reset(&mut self) -> (r: Result<(), CmpLogError>) {
        let mut i: usize = 0;
        while i < CMPLOG_MAP_W
            invariant
                i <= CMPLOG_MAP_W,
                self.headers@.len() == CMPLOG_MAP_W,
                self.vals == old(self).vals,
                self.vals@.len() == CMPLOG_MAP_W,
                forall|j: int| 0 <= j < i ==> self.headers@[j] == (AflppCmpLogHeader { raw: 0 }),
            decreases CMPLOG_MAP_W - i,
        {
            self.headers[i] = AflppCmpLogHeader::new_with_raw_value(0);
            i = i + 1;
        }
        proof {
            assert(self.cleared()) by {
                assert(self.headers_view() =~= Seq::new(
                    CMPLOG_MAP_W as nat,
                    |i: int| AflppCmpLogHeader { raw: 0 },
                ));
            }
            assert(spec_wire_hits(0) == 0) by (bit_vector);
        }
        Ok(())
    }
}

} // verus!
