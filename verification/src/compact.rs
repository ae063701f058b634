//! The native comparison map: plain headers and a per-site payload region
//! read as either instruction records or routine records, selected by the
//! site's recorded kind.

use vstd::prelude::*;
use crate::cmp_map::CmpMap;
use crate::consts::{
    shape_recognized, CMPLOG_KIND_INS, CMPLOG_KIND_RTN, CMPLOG_MAP_H, CMPLOG_MAP_RTN_H,
    CMPLOG_MAP_W,
};
use crate::header::CmpLogHeader;
use crate::records::{routine_zeroed, CmpLogInstruction, CmpLogRoutine, buf32_from_slice};
use crate::values::{zero_buf, CmpLogError, CmplogBytes, CmpValues};

verus! {

/// The payload region of one site, read according to the site's kind: a
/// fixed number of instruction records, or a smaller fixed number of the
/// larger routine records in the same byte budget.
#[derive(Clone, Debug)]
pub enum CmpLogVals {
    /// Instruction payload: `CMPLOG_MAP_H` operand records.
    Operands(Vec<CmpLogInstruction>),
    /// Routine payload: `CMPLOG_MAP_RTN_H` byte-pair records.
    Routines(Vec<CmpLogRoutine>),
}

/// What an instruction record decodes to under a shape code: the operands
/// truncated to the coded width with the recorded equality flag; no value
/// for the recognized but unsupported wide widths. Unrecognized codes are
/// left unspecified here; executable decoding treats them as fatal.
pub open spec fn spec_decode_instruction(shape: u8, rec: CmpLogInstruction) -> Option<CmpValues> {
    if shape == 0 {
        Some(CmpValues::U8(((rec.0 as u8), (rec.1 as u8), rec.2 == 1)))
    } else if shape == 1 {
        Some(CmpValues::U16(((rec.0 as u16), (rec.1 as u16), rec.2 == 1)))
    } else if shape == 3 {
        Some(CmpValues::U32(((rec.0 as u32), (rec.1 as u32), rec.2 == 1)))
    } else if shape == 7 {
        Some(CmpValues::U64((rec.0, rec.1, rec.2 == 1)))
    } else if shape == 15 || shape == 31 || shape == 63 {
        None
    } else {
        arbitrary()
    }
}

/// A comparison map in the native layout.
#[derive(Clone, Debug)]
pub struct CmpLogMap {
    headers: Vec<CmpLogHeader>,
    vals: Vec<CmpLogVals>,
}

impl CmpLogMap {
    /// The headers, one per site.
    pub closed spec fn headers_view(&self) -> Seq<CmpLogHeader> {
        self.headers@
    }

    /// The payload regions, one per site.
    pub closed spec fn vals_view(&self) -> Seq<CmpLogVals> {
        self.vals@
    }

    /// Recorded kind of a site.
    pub open spec fn kind_of(&self, site: int) -> u8 {
        self.headers_view()[site].kind
    }

    /// Recorded shape code of a site.
    pub open spec fn shape_of(&self, site: int) -> u8 {
        self.headers_view()[site].shape
    }

    /// Whether a site's payload is currently held as instruction records.
    pub open spec fn tag_ins(&self, site: int) -> bool {
        self.vals_view()[site] is Operands
    }

    /// Instruction record of a slot.
    pub open spec fn ins_at(&self, site: int, slot: int) -> CmpLogInstruction {
        self.vals_view()[site]->Operands_0@[slot]
    }

    /// Routine record of a slot.
    pub open spec fn rtn_at(&self, site: int, slot: int) -> CmpLogRoutine {
        self.vals_view()[site]->Routines_0@[slot]
    }
}

/// A fresh all-zero instruction payload.
fn zeroed_ops() -> (v: Vec<CmpLogInstruction>)
    ensures
        v@.len() == CMPLOG_MAP_H,
        forall|j: int| 0 <= j < CMPLOG_MAP_H ==> v@[j] == CmpLogInstruction(0, 0, 0),
{
    let mut v: Vec<CmpLogInstruction> = Vec::new();
    let mut i: usize = 0;
    while i < CMPLOG_MAP_H
        invariant
            i <= CMPLOG_MAP_H,
            v@.len() == i,
            forall|j: int| 0 <= j < i ==> v@[j] == CmpLogInstruction(0, 0, 0),
        decreases CMPLOG_MAP_H - i,
    {
        v.push(CmpLogInstruction(0, 0, 0));
        i = i + 1;
    }
    v
}

/// A fresh all-zero routine payload.
fn zeroed_rtns() -> (v: Vec<CmpLogRoutine>)
    ensures
        v@.len() == CMPLOG_MAP_RTN_H,
        forall|j: int| 0 <= j < CMPLOG_MAP_RTN_H ==> routine_zeroed(#[trigger] v@[j]),
{
    let mut v: Vec<CmpLogRoutine> = Vec::new();
    let mut i: usize = 0;
    while i < CMPLOG_MAP_RTN_H
        invariant
            i <= CMPLOG_MAP_RTN_H,
            v@.len() == i,
            forall|j: int| 0 <= j < i ==> routine_zeroed(#[trigger] v@[j]),
        decreases CMPLOG_MAP_RTN_H - i,
    {
        let rec = CmpLogRoutine([0u8; 32], [0u8; 32]);
        proof {
            assert(rec.0@ =~= zero_buf());
            assert(rec.1@ =~= zero_buf());
        }
        v.push(rec);
        i = i + 1;
    }
    v
}

impl CmpLogMap {
    /// A fresh map: every header zero, every payload an all-zero
    /// instruction region.
    pub fn new() -> (r: CmpLogMap)
        ensures
            r.wf(),
            r.cleared(),
            forall|s: int|
                0 <= s < CMPLOG_MAP_W ==> r.tag_ins(s) && forall|j: int|
                    0 <= j < CMPLOG_MAP_H ==> r.ins_at(s, j) == CmpLogInstruction(0, 0, 0),
    {
        let mut headers: Vec<CmpLogHeader> = Vec::new();
        let mut i: usize = 0;
        while i < CMPLOG_MAP_W
            invariant
                i <= CMPLOG_MAP_W,
                headers@.len() == i,
                forall|j: int|
                    0 <= j < i ==> headers@[j] == (CmpLogHeader { hits: 0, shape: 0, kind: 0 }),
            decreases CMPLOG_MAP_W - i,
        {
            headers.push(CmpLogHeader::zeroed());
            i = i + 1;
        }
        let mut vals: Vec<CmpLogVals> = Vec::new();
        let mut i: usize = 0;
        while i < CMPLOG_MAP_W
            invariant
                i <= CMPLOG_MAP_W,
                vals@.len() == i,
                forall|s: int|
                    0 <= s < i ==> (#[trigger] vals@[s]) is Operands && vals@[s]->Operands_0@.len()
                        == CMPLOG_MAP_H && forall|j: int|
                        0 <= j < CMPLOG_MAP_H ==> vals@[s]->Operands_0@[j] == CmpLogInstruction(
                            0,
                            0,
                            0,
                        ),
            decreases CMPLOG_MAP_W - i,
        {
            vals.push(CmpLogVals::Operands(zeroed_ops()));
            i = i + 1;
        }
        let r = CmpLogMap { headers, vals };
        proof {
            assert(r.cleared()) by {
                assert(r.headers_view() =~= Seq::new(
                    CMPLOG_MAP_W as nat,
                    |i: int| CmpLogHeader { hits: 0, shape: 0, kind: 0 },
                ));
            }
        }
        r
    }
}

impl CmpLogMap {
    /// Decode one slot of a site without trusting the header: a shape code
    /// outside the recognized set is reported as the fatal
    /// [`CmpLogError::InvalidShape`] instead of a value.
    pub fn checked_values_of(&self, idx: usize, execution: usize) -> (r: Result<
        Option<CmpValues>,
        CmpLogError,
    >)
        requires
            self.wf(),
            (idx as nat) < self.sites(),
            (execution as nat) < self.hits_of(idx as int),
            (execution as nat) < self.capacity_of(idx as int),
        ensures
            self.decodable(idx as int) ==> r == Ok::<_, CmpLogError>(
                self.decoded(idx as int, execution as int),
            ),
            !self.decodable(idx as int) ==> r == Err::<Option<CmpValues>, _>(
                CmpLogError::InvalidShape(self.shape_of(idx as int)),
            ),
    {
        let h = self.headers[idx];
        if h.kind == CMPLOG_KIND_INS && !(h.shape == 0 || h.shape == 1 || h.shape == 3 || h.shape
            == 7 || h.shape == 15 || h.shape == 31 || h.shape == 63) {
            Err(CmpLogError::InvalidShape(h.shape))
        } else {
            Ok(self.values_of(idx, execution))
        }
    }

    /// Record one instruction comparison at a site: operands zero-extended
    /// to 64 bits, the width code, and whether the comparison held.
    ///
    /// The first hit of a site after a reset or a kind change starts it
    /// afresh over a zeroed instruction payload; later hits advance the hit
    /// counter (it saturates rather than wraps) and overwrite slots in a
    /// ring of `CMPLOG_MAP_H`.
    pub fn record_instruction(&mut self, site: usize, shape: u8, v0: u64, v1: u64, is_eq: bool)
        requires
            old(self).wf(),
            (site as nat) < old(self).sites(),
        ensures
            final(self).wf(),
            forall|s: int|
                0 <= s < CMPLOG_MAP_W && s != site ==> final(self).headers_view()[s] == old(
                    self,
                ).headers_view()[s],
            forall|s: int|
                0 <= s < CMPLOG_MAP_W && s != site ==> final(self).vals_view()[s] == old(
                    self,
                ).vals_view()[s],
            final(self).kind_of(site as int) == CMPLOG_KIND_INS,
            final(self).shape_of(site as int) == shape,
            final(self).tag_ins(site as int),
            ({
                let continuing = old(self).kind_of(site as int) == CMPLOG_KIND_INS && old(
                    self,
                ).hits_of(site as int) > 0;
                let slot = if continuing {
                    old(self).hits_of(site as int) as int % (CMPLOG_MAP_H as int)
                } else {
                    0int
                };
                &&& final(self).hits_of(site as int) == if continuing {
                    if old(self).hits_of(site as int) < 0xffff {
                        old(self).hits_of(site as int) + 1
                    } else {
                        old(self).hits_of(site as int)
                    }
                } else {
                    1nat
                }
                &&& final(self).ins_at(site as int, slot) == CmpLogInstruction(
                    v0,
                    v1,
                    if is_eq {
                        1u8
                    } else {
                        0u8
                    },
                )
                &&& forall|j: int|
                    0 <= j < CMPLOG_MAP_H && j != slot ==> final(self).ins_at(site as int, j) == (
                    if continuing {
                        old(self).ins_at(site as int, j)
                    } else {
                        CmpLogInstruction(0, 0, 0)
                    })
            }),
    {
        let rec = CmpLogInstruction(v0, v1, if is_eq { 1 } else { 0 });
        let h = self.headers[site];
        if h.kind == CMPLOG_KIND_INS && h.hits > 0 {
            let slot: usize = (h.hits as usize) % CMPLOG_MAP_H;
            let new_hits: u16 = if h.hits < 0xffff {
                h.hits + 1
            } else {
                h.hits
            };
            self.headers[site] = CmpLogHeader { hits: new_hits, shape, kind: CMPLOG_KIND_INS };
            match &mut self.vals[site] {
                CmpLogVals::Operands(ops) => {
                    ops[slot] = rec;
                },
                CmpLogVals::Routines(_) => {
                    proof {
                        assert(false);
                    }
                },
            }
        } else {
            self.headers[site] = CmpLogHeader { hits: 1, shape, kind: CMPLOG_KIND_INS };
            let mut ops = zeroed_ops();
            ops[0] = rec;
            self.vals[site] = CmpLogVals::Operands(ops);
        }
    }

    /// Record one routine comparison at a site: the two argument buffers,
    /// zero-padded to the fixed `CMPLOG_RTN_LEN` bytes.
    ///
    /// The first hit of a site after a reset or a kind change starts it
    /// afresh over a zeroed routine payload; later hits advance the hit
    /// counter (it saturates rather than wraps) and overwrite slots in a
    /// ring of `CMPLOG_MAP_RTN_H`.
    pub fn record_routine(&mut self, site: usize, b0: &[u8], b1: &[u8])
        requires
            old(self).wf(),
            (site as nat) < old(self).sites(),
            b0@.len() <= 32,
            b1@.len() <= 32,
        ensures
            final(self).wf(),
            forall|s: int|
                0 <= s < CMPLOG_MAP_W && s != site ==> final(self).headers_view()[s] == old(
                    self,
                ).headers_view()[s],
            forall|s: int|
                0 <= s < CMPLOG_MAP_W && s != site ==> final(self).vals_view()[s] == old(
                    self,
                ).vals_view()[s],
            final(self).kind_of(site as int) == CMPLOG_KIND_RTN,
            final(self).shape_of(site as int) == 0,
            !final(self).tag_ins(site as int),
            ({
                let continuing = old(self).kind_of(site as int) != CMPLOG_KIND_INS && old(
                    self,
                ).hits_of(site as int) > 0;
                let slot = if continuing {
                    old(self).hits_of(site as int) as int % (CMPLOG_MAP_RTN_H as int)
                } else {
                    0int
                };
                &&& final(self).hits_of(site as int) == if continuing {
                    if old(self).hits_of(site as int) < 0xffff {
                        old(self).hits_of(site as int) + 1
                    } else {
                        old(self).hits_of(site as int)
                    }
                } else {
                    1nat
                }
                &&& final(self).rtn_at(site as int, slot).0@ == b0@ + zero_buf().take(
                    32 - b0@.len() as int,
                )
                &&& final(self).rtn_at(site as int, slot).1@ == b1@ + zero_buf().take(
                    32 - b1@.len() as int,
                )
                &&& forall|j: int|
                    0 <= j < CMPLOG_MAP_RTN_H && j != slot ==> if continuing {
                        final(self).rtn_at(site as int, j) == old(self).rtn_at(site as int, j)
                    } else {
                        routine_zeroed(final(self).rtn_at(site as int, j))
                    }
            }),
    {
        let rec = CmpLogRoutine(buf32_from_slice(b0), buf32_from_slice(b1));
        let h = self.headers[site];
        if h.kind != CMPLOG_KIND_INS && h.hits > 0 {
            let slot: usize = (h.hits as usize) % CMPLOG_MAP_RTN_H;
            let new_hits: u16 = if h.hits < 0xffff {
                h.hits + 1
            } else {
                h.hits
            };
            self.headers[site] = CmpLogHeader { hits: new_hits, shape: 0, kind: CMPLOG_KIND_RTN };
            match &mut self.vals[site] {
                CmpLogVals::Routines(rtns) => {
                    rtns[slot] = rec;
                },
                CmpLogVals::Operands(_) => {
                    proof {
                        assert(false);
                    }
                },
            }
        } else {
            self.headers[site] = CmpLogHeader { hits: 1, shape: 0, kind: CMPLOG_KIND_RTN };
            let mut rtns = zeroed_rtns();
            rtns[0] = rec;
            self.vals[site] = CmpLogVals::Routines(rtns);
        }
    }
}

/// Clearing a map is idempotent: a map that was reset once and a map that
/// was reset again from it are observably identical — same headers, same
/// payload store.
///
/// `once` stands for the map after one reset, `twice` for the map after a
/// further reset; the premises are exactly what `reset` ensures of each
/// step.
pub proof fn lemma_reset_idempotent(once: &CmpLogMap, twice: &CmpLogMap)
    requires
        once.cleared(),
        twice.cleared(),
        twice.same_payload(once),
    ensures
        twice.headers_view() == once.headers_view(),
        twice.vals_view() == once.vals_view(),
{
}

impl Default for CmpLogMap {
    /// Same as [`CmpLogMap::new`].
    fn default() -> (r: CmpLogMap)
        ensures
            r.wf(),
            r.cleared(),
    {
        CmpLogMap::new()
    }
}

impl CmpMap for CmpLogMap {
    closed spec fn wf(&self) -> bool {
        &&& self.headers@.len() == CMPLOG_MAP_W
        &&& self.vals@.len() == CMPLOG_MAP_W
        &&& forall|s: int|
            0 <= s < CMPLOG_MAP_W ==> match #[trigger] self.vals@[s] {
                CmpLogVals::Operands(v) => v@.len() == CMPLOG_MAP_H,
                CmpLogVals::Routines(v) => v@.len() == CMPLOG_MAP_RTN_H,
            }
        &&& forall|s: int|
            0 <= s < CMPLOG_MAP_W && (#[trigger] self.headers@[s]).hits > 0 ==> ((
            self.headers@[s].kind == CMPLOG_KIND_INS) <==> self.vals@[s] is Operands)
    }

    open spec fn sites(&self) -> nat {
        CMPLOG_MAP_W as nat
    }

    open spec fn hits_of(&self, site: int) -> nat {
        self.headers_view()[site].hits as nat
    }

    open spec fn capacity_of(&self, site: int) -> nat {
        if self.kind_of(site) == CMPLOG_KIND_INS {
            CMPLOG_MAP_H as nat
        } else {
            CMPLOG_MAP_RTN_H as nat
        }
    }

    open spec fn decodable(&self, site: int) -> bool {
        self.kind_of(site) == CMPLOG_KIND_INS ==> shape_recognized(self.shape_of(site))
    }

    open spec fn wide_at(&self, site: int) -> bool {
        &&& self.kind_of(site) == CMPLOG_KIND_INS
        &&& (self.shape_of(site) == 15 || self.shape_of(site) == 31 || self.shape_of(site) == 63)
    }

    open spec fn decoded(&self, site: int, slot: int) -> Option<CmpValues> {
        if self.kind_of(site) == CMPLOG_KIND_INS {
            spec_decode_instruction(self.shape_of(site), self.ins_at(site, slot))
        } else {
            Some(
                CmpValues::Bytes(
                    (
                        CmplogBytes { buf: self.rtn_at(site, slot).0, len: 32 },
                        CmplogBytes { buf: self.rtn_at(site, slot).1, len: 32 },
                    ),
                ),
            )
        }
    }

    open spec fn cleared(&self) -> bool {
        self.headers_view() == Seq::new(
            CMPLOG_MAP_W as nat,
            |i: int| CmpLogHeader { hits: 0, shape: 0, kind: 0 },
        )
    }

    closed spec fn same_payload(&self, other: &Self) -> bool {
        self.vals == other.vals
    }

    proof fn lemma_cleared_no_hits(&self) {
        assert forall|site: int| 0 <= site < self.sites() implies self.hits_of(site) == 0 by {
            assert(self.headers_view()[site] == CmpLogHeader { hits: 0, shape: 0, kind: 0 });
        }
    }

    fn len(&self) -> (n: usize) {
        CMPLOG_MAP_W
    }

    fn executions_for(&self, idx: usize) -> (n: usize) {
        self.headers[idx].hits as usize
    }

    fn usable_executions_for(&self, idx: usize) -> (n: usize) {
        if self.headers[idx].kind == CMPLOG_KIND_INS {
            if self.executions_for(idx) < CMPLOG_MAP_H {
                self.executions_for(idx)
            } else {
                CMPLOG_MAP_H
            }
        } else if self.executions_for(idx) < CMPLOG_MAP_RTN_H {
            self.executions_for(idx)
        } else {
            CMPLOG_MAP_RTN_H
        }
    }

    fn values_of(&self, idx: usize, execution: usize) -> (r: Option<CmpValues>) {
        if self.headers[idx].kind == CMPLOG_KIND_INS {
            let shape = self.headers[idx].shape;
            match &self.vals[idx] {
                CmpLogVals::Operands(ops) => {
                    let rec = ops[execution];
                    match shape {
                        0 => Some(
                            CmpValues::U8(
                                (
                                    #[verifier::truncate]
                                    (rec.0 as u8),
                                    #[verifier::truncate]
                                    (rec.1 as u8),
                                    rec.2 == 1,
                                ),
                            ),
                        ),
                        1 => Some(
                            CmpValues::U16(
                                (
                                    #[verifier::truncate]
                                    (rec.0 as u16),
                                    #[verifier::truncate]
                                    (rec.1 as u16),
                                    rec.2 == 1,
                                ),
                            ),
                        ),
                        3 => Some(
                            CmpValues::U32(
                                (
                                    #[verifier::truncate]
                                    (rec.0 as u32),
                                    #[verifier::truncate]
                                    (rec.1 as u32),
                                    rec.2 == 1,
                                ),
                            ),
                        ),
                        7 => Some(CmpValues::U64((rec.0, rec.1, rec.2 == 1))),
                        15 | 31 | 63 => None,
                        _ => {
                            proof {
                                assert(false);
                            }
                            None
                        },
                    }
                },
                CmpLogVals::Routines(_) => {
                    proof {
                        assert(false);
                    }
                    None
                },
            }
        } else {
            match &self.vals[idx] {
                CmpLogVals::Routines(rtns) => {
                    let rec = rtns[execution];
                    Some(
                        CmpValues::Bytes(
                            (
                                CmplogBytes::from_buf_and_len(rec.0, 32),
                                CmplogBytes::from_buf_and_len(rec.1, 32),
                            ),
                        ),
                    )
                },
                CmpLogVals::Operands(_) => {
                    proof {
                        assert(false);
                    }
                    None
                },
            }
        }
    }

    fn reset(&mut self) -> (r: Result<(), CmpLogError>) {
        let mut i: usize = 0;
        while i < CMPLOG_MAP_W
            invariant
                i <= CMPLOG_MAP_W,
                self.headers@.len() == CMPLOG_MAP_W,
                self.vals == old(self).vals,
                self.vals@.len() == CMPLOG_MAP_W,
                forall|j: int|
                    0 <= j < i ==> self.headers@[j] == (CmpLogHeader {
                        hits: 0,
                        shape: 0,
                        kind: 0,
                    }),
            decreases CMPLOG_MAP_W - i,
        {
            self.headers[i] = CmpLogHeader::zeroed();
            i = i + 1;
        }
        proof {
            assert(self.cleared()) by {
                assert(self.headers_view() =~= Seq::new(
                    CMPLOG_MAP_W as nat,
                    |i: int| CmpLogHeader { hits: 0, shape: 0, kind: 0 },
                ));
            }
        }
        Ok(())
    }
}

} // verus!
