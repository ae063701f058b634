//! The fixed-size binary image of the wire map: every header, then every
//! payload region, little-endian, with no length prefix and no padding
//! beyond the records' own reserved bytes. Producer and consumer must agree
//! on this single representation; serializing and deserializing it is
//! byte-exact.

use vstd::prelude::*;
use vstd::bytes::{
    spec_u16_to_le_bytes, spec_u16_from_le_bytes, spec_u64_to_le_bytes, spec_u64_from_le_bytes,
    lemma_auto_spec_u16_to_from_le_bytes, lemma_auto_spec_u64_to_from_le_bytes,
};
use crate::consts::{CMPLOG_KIND_INS, CMPLOG_MAP_H, CMPLOG_MAP_RTN_EXTENDED_H, CMPLOG_MAP_W};
use crate::header::{spec_wire_kind, AflppCmpLogHeader};
use crate::records::{AflppCmpLogFnOperands, AflppCmpLogOperands};
use crate::cmp_map::CmpMap;
use crate::wire::{site_full, AflppCmpLogMap, AflppCmpLogVals};

verus! {

/// Bytes of one record in the image, either representation.
pub const AFLPP_RECORD_BYTES: usize = 72;

/// Bytes of one site's payload region in the image.
pub const AFLPP_SITE_BYTES: usize = CMPLOG_MAP_H * 72;

/// Total bytes of the image: `CMPLOG_MAP_W` headers followed by
/// `CMPLOG_MAP_W` payload regions.
pub const AFLPP_MAP_BYTES: usize = CMPLOG_MAP_W * 2 + CMPLOG_MAP_W * CMPLOG_MAP_H * 72;

/// Image of one operand record: the eight 64-bit limbs little-endian, then
/// the reserved bytes.
pub open spec fn spec_operands_bytes(r: AflppCmpLogOperands) -> Seq<u8> {
    spec_u64_to_le_bytes(r.v0) + spec_u64_to_le_bytes(r.v0_128) + spec_u64_to_le_bytes(r.v0_256_0)
        + spec_u64_to_le_bytes(r.v0_256_1) + spec_u64_to_le_bytes(r.v1) + spec_u64_to_le_bytes(
        r.v1_128,
    ) + spec_u64_to_le_bytes(r.v1_256_0) + spec_u64_to_le_bytes(r.v1_256_1) + r.unused@
}

/// Image of one routine-argument record: both buffers, both length bytes,
/// then the reserved bytes.
pub open spec fn spec_fn_operands_bytes(r: AflppCmpLogFnOperands) -> Seq<u8> {
    r.v0@ + r.v1@ + seq![r.v0_len] + seq![r.v1_len] + r.unused@
}

/// Image of a run of operand records.
pub open spec fn spec_ops_seq_bytes(s: Seq<AflppCmpLogOperands>) -> Seq<u8>
    decreases s.len(),
{
    if s.len() == 0 {
        Seq::empty()
    } else {
        spec_operands_bytes(s[0]) + spec_ops_seq_bytes(s.drop_first())
    }
}

/// Image of a run of routine-argument records.
pub open spec fn spec_fops_seq_bytes(s: Seq<AflppCmpLogFnOperands>) -> Seq<u8>
    decreases s.len(),
{
    if s.len() == 0 {
        Seq::empty()
    } else {
        spec_fn_operands_bytes(s[0]) + spec_fops_seq_bytes(s.drop_first())
    }
}

/// Image of one site's payload region, under its current representation.
pub open spec fn spec_site_bytes(v: AflppCmpLogVals) -> Seq<u8> {
    match v {
        AflppCmpLogVals::Operands(ops) => spec_ops_seq_bytes(ops@),
        AflppCmpLogVals::FnOperands(fops) => spec_fops_seq_bytes(fops@),
    }
}

/// Image of a run of packed headers.
pub open spec fn spec_headers_bytes(s: Seq<AflppCmpLogHeader>) -> Seq<u8>
    decreases s.len(),
{
    if s.len() == 0 {
        Seq::empty()
    } else {
        spec_u16_to_le_bytes(s[0].raw) + spec_headers_bytes(s.drop_first())
    }
}

/// Image of a run of site payload regions.
pub open spec fn spec_sites_bytes(s: Seq<AflppCmpLogVals>) -> Seq<u8>
    decreases s.len(),
{
    if s.len() == 0 {
        Seq::empty()
    } else {
        spec_site_bytes(s[0]) + spec_sites_bytes(s.drop_first())
    }
}

/// Image of a whole map.
pub open spec fn spec_map_bytes(m: &AflppCmpLogMap) -> Seq<u8> {
    spec_headers_bytes(m.headers_view()) + spec_sites_bytes(m.vals_view())
}

/// An operand record's image is one record long.
pub proof fn lemma_operands_bytes_len(r: AflppCmpLogOperands)
    ensures
        spec_operands_bytes(r).len() == AFLPP_RECORD_BYTES,
{
    lemma_auto_spec_u64_to_from_le_bytes();
}

/// A routine-argument record's image is one record long.
pub proof fn lemma_fn_operands_bytes_len(r: AflppCmpLogFnOperands)
    ensures
        spec_fn_operands_bytes(r).len() == AFLPP_RECORD_BYTES,
{
}

/// A run of operand records has one record's bytes per element.
pub proof fn lemma_ops_seq_bytes_len(s: Seq<AflppCmpLogOperands>)
    ensures
        spec_ops_seq_bytes(s).len() == AFLPP_RECORD_BYTES * s.len(),
    decreases s.len(),
{
    if s.len() == 0 {
    } else {
        lemma_operands_bytes_len(s[0]);
        lemma_ops_seq_bytes_len(s.drop_first());
    }
}

/// A run of routine-argument records has one record's bytes per element.
pub proof fn lemma_fops_seq_bytes_len(s: Seq<AflppCmpLogFnOperands>)
    ensures
        spec_fops_seq_bytes(s).len() == AFLPP_RECORD_BYTES * s.len(),
    decreases s.len(),
{
    if s.len() == 0 {
    } else {
        lemma_fn_operands_bytes_len(s[0]);
        lemma_fops_seq_bytes_len(s.drop_first());
    }
}

/// A full site's image is one payload region long.
pub proof fn lemma_site_bytes_len(v: AflppCmpLogVals)
    requires
        site_full(v),
    ensures
        spec_site_bytes(v).len() == AFLPP_SITE_BYTES,
{
    match v {
        AflppCmpLogVals::Operands(ops) => lemma_ops_seq_bytes_len(ops@),
        AflppCmpLogVals::FnOperands(fops) => lemma_fops_seq_bytes_len(fops@),
    }
}

/// A run of full sites has one payload region's bytes per element.
pub proof fn lemma_sites_bytes_len(s: Seq<AflppCmpLogVals>)
    requires
        forall|i: int| 0 <= i < s.len() ==> site_full(#[trigger] s[i]),
    ensures
        spec_sites_bytes(s).len() == AFLPP_SITE_BYTES * s.len(),
    decreases s.len(),
{
    if s.len() == 0 {
    } else {
        lemma_site_bytes_len(s[0]);
        assert(forall|i: int| 0 <= i < s.drop_first().len() ==> site_full(
            #[trigger] s.drop_first()[i],
        ));
        lemma_sites_bytes_len(s.drop_first());
    }
}

/// A run of headers has two bytes per element.
pub proof fn lemma_headers_bytes_len(s: Seq<AflppCmpLogHeader>)
    ensures
        spec_headers_bytes(s).len() == 2 * s.len(),
    decreases s.len(),
{
    lemma_auto_spec_u16_to_from_le_bytes();
    if s.len() == 0 {
    } else {
        lemma_headers_bytes_len(s.drop_first());
    }
}

/// Appending a header appends its image.
pub proof fn lemma_headers_bytes_snoc(s: Seq<AflppCmpLogHeader>, h: AflppCmpLogHeader)
    ensures
        spec_headers_bytes(s.push(h)) == spec_headers_bytes(s) + spec_u16_to_le_bytes(h.raw),
    decreases s.len(),
{
    if s.len() == 0 {
        assert(s.push(h)[0] == h);
        assert(s.push(h).drop_first() =~= Seq::<AflppCmpLogHeader>::empty());
        assert(spec_headers_bytes(s.push(h).drop_first()) == Seq::<u8>::empty());
        assert(spec_headers_bytes(s) == Seq::<u8>::empty());
        assert(spec_headers_bytes(s.push(h)) =~= spec_headers_bytes(s) + spec_u16_to_le_bytes(
            h.raw,
        ));
    } else {
        assert(s.push(h).drop_first() =~= s.drop_first().push(h));
        lemma_headers_bytes_snoc(s.drop_first(), h);
        assert(s.push(h)[0] == s[0]);
        assert(spec_headers_bytes(s.push(h)) =~= spec_headers_bytes(s) + spec_u16_to_le_bytes(
            h.raw,
        ));
    }
}

/// Appending an operand record appends its image.
pub proof fn lemma_ops_seq_bytes_snoc(s: Seq<AflppCmpLogOperands>, r: AflppCmpLogOperands)
    ensures
        spec_ops_seq_bytes(s.push(r)) == spec_ops_seq_bytes(s) + spec_operands_bytes(r),
    decreases s.len(),
{
    if s.len() == 0 {
        assert(s.push(r)[0] == r);
        assert(s.push(r).drop_first() =~= Seq::<AflppCmpLogOperands>::empty());
        assert(spec_ops_seq_bytes(s.push(r).drop_first()) == Seq::<u8>::empty());
        assert(spec_ops_seq_bytes(s) == Seq::<u8>::empty());
        assert(spec_ops_seq_bytes(s.push(r)) =~= spec_ops_seq_bytes(s) + spec_operands_bytes(r));
    } else {
        assert(s.push(r).drop_first() =~= s.drop_first().push(r));
        lemma_ops_seq_bytes_snoc(s.drop_first(), r);
        assert(s.push(r)[0] == s[0]);
        assert(spec_ops_seq_bytes(s.push(r)) =~= spec_ops_seq_bytes(s) + spec_operands_bytes(r));
    }
}

/// Appending a routine-argument record appends its image.
pub proof fn lemma_fops_seq_bytes_snoc(s: Seq<AflppCmpLogFnOperands>, r: AflppCmpLogFnOperands)
    ensures
        spec_fops_seq_bytes(s.push(r)) == spec_fops_seq_bytes(s) + spec_fn_operands_bytes(r),
    decreases s.len(),
{
    if s.len() == 0 {
        assert(s.push(r)[0] == r);
        assert(s.push(r).drop_first() =~= Seq::<AflppCmpLogFnOperands>::empty());
        assert(spec_fops_seq_bytes(s.push(r).drop_first()) == Seq::<u8>::empty());
        assert(spec_fops_seq_bytes(s) == Seq::<u8>::empty());
        assert(spec_fops_seq_bytes(s.push(r)) =~= spec_fops_seq_bytes(s) + spec_fn_operands_bytes(
            r,
        ));
    } else {
        assert(s.push(r).drop_first() =~= s.drop_first().push(r));
        lemma_fops_seq_bytes_snoc(s.drop_first(), r);
        assert(s.push(r)[0] == s[0]);
        assert(spec_fops_seq_bytes(s.push(r)) =~= spec_fops_seq_bytes(s) + spec_fn_operands_bytes(
            r,
        ));
    }
}

/// Appending a site appends its image.
pub proof fn lemma_sites_bytes_snoc(s: Seq<AflppCmpLogVals>, v: AflppCmpLogVals)
    ensures
        spec_sites_bytes(s.push(v)) == spec_sites_bytes(s) + spec_site_bytes(v),
    decreases s.len(),
{
    if s.len() == 0 {
        assert(s.push(v)[0] == v);
        assert(s.push(v).drop_first() =~= Seq::<AflppCmpLogVals>::empty());
        assert(spec_sites_bytes(s.push(v).drop_first()) == Seq::<u8>::empty());
        assert(spec_sites_bytes(s) == Seq::<u8>::empty());
        assert(spec_sites_bytes(s.push(v)) =~= spec_sites_bytes(s) + spec_site_bytes(v));
    } else {
        assert(s.push(v).drop_first() =~= s.drop_first().push(v));
        lemma_sites_bytes_snoc(s.drop_first(), v);
        assert(s.push(v)[0] == s[0]);
        assert(spec_sites_bytes(s.push(v)) =~= spec_sites_bytes(s) + spec_site_bytes(v));
    }
}

/// The image of a run of headers holds each header's image at its offset.
pub proof fn lemma_headers_bytes_index(s: Seq<AflppCmpLogHeader>, k: int)
    requires
        0 <= k < s.len(),
    ensures
        spec_headers_bytes(s).subrange(2 * k, 2 * k + 2) == spec_u16_to_le_bytes(s[k].raw),
    decreases k,
{
    lemma_auto_spec_u16_to_from_le_bytes();
    lemma_headers_bytes_len(s);
    lemma_headers_bytes_len(s.drop_first());
    if k == 0 {
        assert(spec_headers_bytes(s).subrange(0, 2) =~= spec_u16_to_le_bytes(s[0].raw));
    } else {
        lemma_headers_bytes_index(s.drop_first(), k - 1);
        assert(s.drop_first()[k - 1] == s[k]);
        assert(spec_headers_bytes(s).subrange(2 * k, 2 * k + 2) =~= spec_headers_bytes(
            s.drop_first(),
        ).subrange(2 * (k - 1), 2 * (k - 1) + 2));
    }
}

/// The image of a run of operand records holds each record's image at its
/// offset.
pub proof fn lemma_ops_seq_bytes_index(s: Seq<AflppCmpLogOperands>, k: int)
    requires
        0 <= k < s.len(),
    ensures
        spec_ops_seq_bytes(s).subrange(72 * k, 72 * k + 72) == spec_operands_bytes(s[k]),
    decreases k,
{
    lemma_operands_bytes_len(s[0]);
    lemma_operands_bytes_len(s[k]);
    lemma_ops_seq_bytes_len(s);
    lemma_ops_seq_bytes_len(s.drop_first());
    if k == 0 {
        assert(spec_ops_seq_bytes(s).subrange(0, 72) =~= spec_operands_bytes(s[0]));
    } else {
        lemma_ops_seq_bytes_index(s.drop_first(), k - 1);
        assert(s.drop_first()[k - 1] == s[k]);
        assert(spec_ops_seq_bytes(s).subrange(72 * k, 72 * k + 72) =~= spec_ops_seq_bytes(
            s.drop_first(),
        ).subrange(72 * (k - 1), 72 * (k - 1) + 72));
    }
}

/// The image of a run of routine-argument records holds each record's image
/// at its offset.
pub proof fn lemma_fops_seq_bytes_index(s: Seq<AflppCmpLogFnOperands>, k: int)
    requires
        0 <= k < s.len(),
    ensures
        spec_fops_seq_bytes(s).subrange(72 * k, 72 * k + 72) == spec_fn_operands_bytes(s[k]),
    decreases k,
{
    lemma_fn_operands_bytes_len(s[0]);
    lemma_fn_operands_bytes_len(s[k]);
    lemma_fops_seq_bytes_len(s);
    lemma_fops_seq_bytes_len(s.drop_first());
    if k == 0 {
        assert(spec_fops_seq_bytes(s).subrange(0, 72) =~= spec_fn_operands_bytes(s[0]));
    } else {
        lemma_fops_seq_bytes_index(s.drop_first(), k - 1);
        assert(s.drop_first()[k - 1] == s[k]);
        assert(spec_fops_seq_bytes(s).subrange(72 * k, 72 * k + 72) =~= spec_fops_seq_bytes(
            s.drop_first(),
        ).subrange(72 * (k - 1), 72 * (k - 1) + 72));
    }
}

/// Append the little-endian image of a 16-bit value.
fn push_u16_le(out: &mut Vec<u8>, x: u16)
    ensures
        final(out)@ == old(out)@ + spec_u16_to_le_bytes(x),
{
    let mut b = vstd::bytes::u16_to_le_bytes(x);
    out.append(&mut b);
}

/// Append the little-endian image of a 64-bit value.
fn push_u64_le(out: &mut Vec<u8>, x: u64)
    ensures
        final(out)@ == old(out)@ + spec_u64_to_le_bytes(x),
{
    let mut b = vstd::bytes::u64_to_le_bytes(x);
    out.append(&mut b);
}

/// Append the image of one operand record.
fn push_operands(out: &mut Vec<u8>, r: &AflppCmpLogOperands)
    ensures
        final(out)@ == old(out)@ + spec_operands_bytes(*r),
{
    let ghost base = out@;
    push_u64_le(out, r.v0);
    push_u64_le(out, r.v0_128);
    push_u64_le(out, r.v0_256_0);
    push_u64_le(out, r.v0_256_1);
    push_u64_le(out, r.v1);
    push_u64_le(out, r.v1_128);
    push_u64_le(out, r.v1_256_0);
    push_u64_le(out, r.v1_256_1);
    let ghost mid = out@;
    let mut k: usize = 0;
    while k < 8
        invariant
            k <= 8,
            out@ == mid + r.unused@.take(k as int),
        decreases 8 - k,
    {
        out.push(r.unused[k]);
        proof {
            assert(out@ =~= mid + r.unused@.take(k + 1));
        }
        k = k + 1;
    }
    proof {
        lemma_auto_spec_u64_to_from_le_bytes();
        assert(r.unused@.take(8) =~= r.unused@);
        assert(out@ =~= base + spec_operands_bytes(*r));
    }
}

/// Append the image of one routine-argument record.
fn push_fn_operands(out: &mut Vec<u8>, r: &AflppCmpLogFnOperands)
    ensures
        final(out)@ == old(out)@ + spec_fn_operands_bytes(*r),
{
    let ghost base = out@;
    let mut k: usize = 0;
    while k < 32
        invariant
            k <= 32,
            out@ == base + r.v0@.take(k as int),
        decreases 32 - k,
    {
        out.push(r.v0[k]);
        proof {
            assert(out@ =~= base + r.v0@.take(k + 1));
        }
        k = k + 1;
    }
    let ghost mid0 = out@;
    let mut k: usize = 0;
    while k < 32
        invariant
            k <= 32,
            out@ == mid0 + r.v1@.take(k as int),
        decreases 32 - k,
    {
        out.push(r.v1[k]);
        proof {
            assert(out@ =~= mid0 + r.v1@.take(k + 1));
        }
        k = k + 1;
    }
    out.push(r.v0_len);
    out.push(r.v1_len);
    let ghost mid1 = out@;
    let mut k: usize = 0;
    while k < 6
        invariant
            k <= 6,
            out@ == mid1 + r.unused@.take(k as int),
        decreases 6 - k,
    {
        out.push(r.unused[k]);
        proof {
            assert(out@ =~= mid1 + r.unused@.take(k + 1));
        }
        k = k + 1;
    }
    proof {
        assert(r.v0@.take(32) =~= r.v0@);
        assert(r.v1@.take(32) =~= r.v1@);
        assert(r.unused@.take(6) =~= r.unused@);
        assert(out@ =~= base + spec_fn_operands_bytes(*r));
    }
}

impl AflppCmpLogMap {
    /// Serialize the whole map into its fixed-size binary image.
    pub fn to_bytes(&self) -> (out: Vec<u8>)
        requires
            self.wf(),
        ensures
            out@ == spec_map_bytes(self),
            out@.len() == AFLPP_MAP_BYTES,
    {
        proof {
            self.lemma_wf_exposed();
        }
        let mut out: Vec<u8> = Vec::with_capacity(AFLPP_MAP_BYTES);
        let headers = self.headers();
        let mut i: usize = 0;
        while i < CMPLOG_MAP_W
            invariant
                i <= CMPLOG_MAP_W,
                self.wf(),
                headers@ == self.headers_view(),
                headers@.len() == CMPLOG_MAP_W,
                out@ == spec_headers_bytes(self.headers_view().take(i as int)),
            decreases CMPLOG_MAP_W - i,
        {
            let ghost pre = self.headers_view().take(i as int);
            push_u16_le(&mut out, headers[i].raw);
            proof {
                lemma_headers_bytes_snoc(pre, self.headers_view()[i as int]);
                assert(self.headers_view().take(i + 1) =~= pre.push(
                    self.headers_view()[i as int],
                ));
            }
            i = i + 1;
        }
        proof {
            assert(self.headers_view().take(CMPLOG_MAP_W as int) =~= self.headers_view());
        }
        let ghost hdr_bytes = out@;
        let vals = self.values();
        let mut i: usize = 0;
        while i < CMPLOG_MAP_W
            invariant
                i <= CMPLOG_MAP_W,
                self.wf(),
                vals@ == self.vals_view(),
                vals@.len() == CMPLOG_MAP_W,
                hdr_bytes == spec_headers_bytes(self.headers_view()),
                out@ == hdr_bytes + spec_sites_bytes(self.vals_view().take(i as int)),
            decreases CMPLOG_MAP_W - i,
        {
            let ghost pre = self.vals_view().take(i as int);
            let ghost site_base = out@;
            proof {
                self.lemma_wf_exposed();
            }
            match &vals[i] {
                AflppCmpLogVals::Operands(ops) => {
                    let n = ops.len();
                    proof {
                        assert(site_full(self.vals_view()[i as int]));
                    }
                    let mut k: usize = 0;
                    while k < n
                        invariant
                            k <= n,
                            n == ops@.len(),
                            out@ == site_base + spec_ops_seq_bytes(ops@.take(k as int)),
                        decreases n - k,
                    {
                        let ghost opre = ops@.take(k as int);
                        push_operands(&mut out, &ops[k]);
                        proof {
                            lemma_ops_seq_bytes_snoc(opre, ops@[k as int]);
                            assert(ops@.take(k + 1) =~= opre.push(ops@[k as int]));
                        }
                        k = k + 1;
                    }
                    proof {
                        assert(ops@.take(n as int) =~= ops@);
                        assert(out@ == site_base + spec_site_bytes(self.vals_view()[i as int]));
                    }
                },
                AflppCmpLogVals::FnOperands(fops) => {
                    let n = fops.len();
                    proof {
                        assert(site_full(self.vals_view()[i as int]));
                    }
                    let mut k: usize = 0;
                    while k < n
                        invariant
                            k <= n,
                            n == fops@.len(),
                            out@ == site_base + spec_fops_seq_bytes(fops@.take(k as int)),
                        decreases n - k,
                    {
                        let ghost fpre = fops@.take(k as int);
                        push_fn_operands(&mut out, &fops[k]);
                        proof {
                            lemma_fops_seq_bytes_snoc(fpre, fops@[k as int]);
                            assert(fops@.take(k + 1) =~= fpre.push(fops@[k as int]));
                        }
                        k = k + 1;
                    }
                    proof {
                        assert(fops@.take(n as int) =~= fops@);
                        assert(out@ == site_base + spec_site_bytes(self.vals_view()[i as int]));
                    }
                },
            }
            proof {
                lemma_sites_bytes_snoc(pre, self.vals_view()[i as int]);
                assert(self.vals_view().take(i + 1) =~= pre.push(self.vals_view()[i as int]));
                assert(out@ =~= hdr_bytes + spec_sites_bytes(self.vals_view().take(i + 1)));
            }
            i = i + 1;
        }
        proof {
            assert(self.vals_view().take(CMPLOG_MAP_W as int) =~= self.vals_view());
            lemma_headers_bytes_len(self.headers_view());
            lemma_sites_bytes_len(self.vals_view());
        }
        out
    }
}

/// Read the 64-bit value at an offset of the image.
fn read_u64_at(bytes: &[u8], off: usize) -> (x: u64)
    requires
        off + 8 <= bytes@.len(),
        bytes@.len() <= usize::MAX,
    ensures
        x == spec_u64_from_le_bytes(bytes@.subrange(off as int, off as int + 8)),
{
    vstd::bytes::u64_from_le_bytes(vstd::slice::slice_subrange(bytes, off, off + 8))
}

/// Parse one operand record at an offset of the image.
fn parse_operands(bytes: &[u8], off: usize) -> (r: AflppCmpLogOperands)
    requires
        off + 72 <= bytes@.len(),
        bytes@.len() <= usize::MAX,
    ensures
        spec_operands_bytes(r) == bytes@.subrange(off as int, off as int + 72),
{
    let v0 = read_u64_at(bytes, off);
    let v0_128 = read_u64_at(bytes, off + 8);
    let v0_256_0 = read_u64_at(bytes, off + 16);
    let v0_256_1 = read_u64_at(bytes, off + 24);
    let v1 = read_u64_at(bytes, off + 32);
    let v1_128 = read_u64_at(bytes, off + 40);
    let v1_256_0 = read_u64_at(bytes, off + 48);
    let v1_256_1 = read_u64_at(bytes, off + 56);
    let mut unused: [u8; 8] = [0u8; 8];
    let mut k: usize = 0;
    while k < 8
        invariant
            k <= 8,
            off + 72 <= bytes@.len(),
            bytes@.len() <= usize::MAX,
            forall|j: int| 0 <= j < k ==> unused@[j] == bytes@[off + 64 + j],
        decreases 8 - k,
    {
        unused[k] = *vstd::slice::slice_index_get(bytes, off + 64 + k);
        k = k + 1;
    }
    let r = AflppCmpLogOperands {
        v0,
        v0_128,
        v0_256_0,
        v0_256_1,
        v1,
        v1_128,
        v1_256_0,
        v1_256_1,
        unused,
    };
    proof {
        lemma_auto_spec_u64_to_from_le_bytes();
        let o = off as int;
        assert(spec_u64_to_le_bytes(r.v0) == bytes@.subrange(o, o + 8)) by {
            assert(bytes@.subrange(o, o + 8).len() == 8);
        }
        assert(spec_u64_to_le_bytes(r.v0_128) == bytes@.subrange(o + 8, o + 16)) by {
            assert(bytes@.subrange(o + 8, o + 16).len() == 8);
        }
        assert(spec_u64_to_le_bytes(r.v0_256_0) == bytes@.subrange(o + 16, o + 24)) by {
            assert(bytes@.subrange(o + 16, o + 24).len() == 8);
        }
        assert(spec_u64_to_le_bytes(r.v0_256_1) == bytes@.subrange(o + 24, o + 32)) by {
            assert(bytes@.subrange(o + 24, o + 32).len() == 8);
        }
        assert(spec_u64_to_le_bytes(r.v1) == bytes@.subrange(o + 32, o + 40)) by {
            assert(bytes@.subrange(o + 32, o + 40).len() == 8);
        }
        assert(spec_u64_to_le_bytes(r.v1_128) == bytes@.subrange(o + 40, o + 48)) by {
            assert(bytes@.subrange(o + 40, o + 48).len() == 8);
        }
        assert(spec_u64_to_le_bytes(r.v1_256_0) == bytes@.subrange(o + 48, o + 56)) by {
            assert(bytes@.subrange(o + 48, o + 56).len() == 8);
        }
        assert(spec_u64_to_le_bytes(r.v1_256_1) == bytes@.subrange(o + 56, o + 64)) by {
            assert(bytes@.subrange(o + 56, o + 64).len() == 8);
        }
        assert(r.unused@ =~= bytes@.subrange(o + 64, o + 72));
        assert(spec_operands_bytes(r) =~= bytes@.subrange(o, o + 72));
    }
    r
}

/// Parse one routine-argument record at an offset of the image.
fn parse_fn_operands(bytes: &[u8], off: usize) -> (r: AflppCmpLogFnOperands)
    requires
        off + 72 <= bytes@.len(),
        bytes@.len() <= usize::MAX,
    ensures
        spec_fn_operands_bytes(r) == bytes@.subrange(off as int, off as int + 72),
{
    let v0 = crate::records::buf32_from_slice(vstd::slice::slice_subrange(bytes, off, off + 32));
    let v1 = crate::records::buf32_from_slice(
        vstd::slice::slice_subrange(bytes, off + 32, off + 64),
    );
    let v0_len = *vstd::slice::slice_index_get(bytes, off + 64);
    let v1_len = *vstd::slice::slice_index_get(bytes, off + 65);
    let mut unused: [u8; 6] = [0u8; 6];
    let mut k: usize = 0;
    while k < 6
        invariant
            k <= 6,
            off + 72 <= bytes@.len(),
            bytes@.len() <= usize::MAX,
            forall|j: int| 0 <= j < k ==> unused@[j] == bytes@[off + 66 + j],
        decreases 6 - k,
    {
        unused[k] = *vstd::slice::slice_index_get(bytes, off + 66 + k);
        k = k + 1;
    }
    let r = AflppCmpLogFnOperands { v0, v1, v0_len, v1_len, unused };
    proof {
        let o = off as int;
        assert(r.v0@ =~= bytes@.subrange(o, o + 32));
        assert(r.v1@ =~= bytes@.subrange(o + 32, o + 64));
        assert(r.unused@ =~= bytes@.subrange(o + 66, o + 72));
        assert(spec_fn_operands_bytes(r) =~= bytes@.subrange(o, o + 72));
    }
    r
}

impl AflppCmpLogMap {
    /// Deserialize a map from its fixed-size binary image. The only check
    /// is the byte count: the image carries no version or length field, so
    /// any sequence of the right size is a map. The result reproduces the
    /// image byte for byte.
    pub fn from_bytes(bytes: &[u8]) -> (r: Option<AflppCmpLogMap>)
        ensures
            bytes@.len() != AFLPP_MAP_BYTES ==> r is None,
            bytes@.len() == AFLPP_MAP_BYTES ==> r is Some,
            r matches Some(m) ==> m.wf() && m.coherent() && spec_map_bytes(&m) == bytes@,
    {
        if bytes.len() != AFLPP_MAP_BYTES {
            return None;
        }
        let mut headers: Vec<AflppCmpLogHeader> = Vec::new();
        let mut i: usize = 0;
        while i < CMPLOG_MAP_W
            invariant
                i <= CMPLOG_MAP_W,
                headers@.len() == i,
                bytes@.len() == AFLPP_MAP_BYTES,
                spec_headers_bytes(headers@) == bytes@.subrange(0, 2 * i as int),
            decreases CMPLOG_MAP_W - i,
        {
            let ghost prev = headers@;
            let x = vstd::bytes::u16_from_le_bytes(
                vstd::slice::slice_subrange(bytes, 2 * i, 2 * i + 2),
            );
            let h = AflppCmpLogHeader::new_with_raw_value(x);
            headers.push(h);
            proof {
                lemma_auto_spec_u16_to_from_le_bytes();
                lemma_headers_bytes_snoc(prev, h);
                assert(spec_u16_to_le_bytes(x) == bytes@.subrange(2 * i as int, 2 * i as int + 2))
                    by {
                    assert(bytes@.subrange(2 * i as int, 2 * i as int + 2).len() == 2);
                }
                assert(spec_headers_bytes(headers@) =~= bytes@.subrange(0, 2 * (i + 1)));
            }
            i = i + 1;
        }
        let mut vals: Vec<AflppCmpLogVals> = Vec::new();
        let mut i: usize = 0;
        while i < CMPLOG_MAP_W
            invariant
                i <= CMPLOG_MAP_W,
                vals@.len() == i,
                headers@.len() == CMPLOG_MAP_W,
                bytes@.len() == AFLPP_MAP_BYTES,
                spec_headers_bytes(headers@) == bytes@.subrange(0, 2 * CMPLOG_MAP_W as int),
                spec_sites_bytes(vals@) == bytes@.subrange(
                    2 * CMPLOG_MAP_W as int,
                    2 * CMPLOG_MAP_W + (AFLPP_SITE_BYTES as int) * i,
                ),
                forall|s: int| 0 <= s < i ==> site_full(#[trigger] vals@[s]),
                forall|s: int|
                    0 <= s < i ==> ((spec_wire_kind(headers@[s].raw) == CMPLOG_KIND_INS) <==> (
                    #[trigger] vals@[s]) is Operands),
            decreases CMPLOG_MAP_W - i,
        {
            let ghost pre = vals@;
            let ghost site_lo = 2 * CMPLOG_MAP_W + (AFLPP_SITE_BYTES as int) * (i as int);
            proof {
                assert(AFLPP_SITE_BYTES == 2304);
                assert(CMPLOG_MAP_W == 65536);
                assert(AFLPP_MAP_BYTES == 151126016);
            }
            let base: usize = CMPLOG_MAP_W * 2 + AFLPP_SITE_BYTES * i;
            proof {
                assert(base + 2304 <= AFLPP_MAP_BYTES);
            }
            let v: AflppCmpLogVals = if headers[i].type_() == CMPLOG_KIND_INS {
                let mut ops: Vec<AflppCmpLogOperands> = Vec::new();
                let mut k: usize = 0;
                while k < CMPLOG_MAP_H
                    invariant
                        k <= CMPLOG_MAP_H,
                        ops@.len() == k,
                        bytes@.len() == AFLPP_MAP_BYTES,
                        base == 2 * CMPLOG_MAP_W + AFLPP_SITE_BYTES * i,
                        base + 2304 <= AFLPP_MAP_BYTES,
                        i < CMPLOG_MAP_W,
                        spec_ops_seq_bytes(ops@) == bytes@.subrange(
                            base as int,
                            base as int + 72 * k,
                        ),
                    decreases CMPLOG_MAP_H - k,
                {
                    let ghost opre = ops@;
                    let rec = parse_operands(bytes, base + 72 * k);
                    ops.push(rec);
                    proof {
                        lemma_ops_seq_bytes_snoc(opre, rec);
                        assert(spec_ops_seq_bytes(ops@) =~= bytes@.subrange(
                            base as int,
                            base as int + 72 * (k + 1),
                        ));
                    }
                    k = k + 1;
                }
                AflppCmpLogVals::Operands(ops)
            } else {
                let mut fops: Vec<AflppCmpLogFnOperands> = Vec::new();
                let mut k: usize = 0;
                while k < CMPLOG_MAP_RTN_EXTENDED_H
                    invariant
                        k <= CMPLOG_MAP_RTN_EXTENDED_H,
                        fops@.len() == k,
                        bytes@.len() == AFLPP_MAP_BYTES,
                        base == 2 * CMPLOG_MAP_W + AFLPP_SITE_BYTES * i,
                        base + 2304 <= AFLPP_MAP_BYTES,
                        i < CMPLOG_MAP_W,
                        spec_fops_seq_bytes(fops@) == bytes@.subrange(
                            base as int,
                            base as int + 72 * k,
                        ),
                    decreases CMPLOG_MAP_RTN_EXTENDED_H - k,
                {
                    let ghost fpre = fops@;
                    let rec = parse_fn_operands(bytes, base + 72 * k);
                    fops.push(rec);
                    proof {
                        lemma_fops_seq_bytes_snoc(fpre, rec);
                        assert(spec_fops_seq_bytes(fops@) =~= bytes@.subrange(
                            base as int,
                            base as int + 72 * (k + 1),
                        ));
                    }
                    k = k + 1;
                }
                AflppCmpLogVals::FnOperands(fops)
            };
            vals.push(v);
            proof {
                lemma_sites_bytes_snoc(pre, v);
                assert(spec_site_bytes(v) == bytes@.subrange(site_lo, site_lo + 2304));
                assert(spec_sites_bytes(vals@) =~= bytes@.subrange(
                    2 * CMPLOG_MAP_W as int,
                    2 * CMPLOG_MAP_W + (AFLPP_SITE_BYTES as int) * (i + 1),
                ));
            }
            i = i + 1;
        }
        let m = AflppCmpLogMap::from_parts(headers, vals);
        proof {
            assert(spec_map_bytes(&m) =~= bytes@);
        }
        Some(m)
    }
}

/// An operand record's image holds each field's image at its offset.
pub proof fn lemma_operands_bytes_fields(r: AflppCmpLogOperands)
    ensures
        spec_operands_bytes(r).subrange(0, 8) == spec_u64_to_le_bytes(r.v0),
        spec_operands_bytes(r).subrange(8, 16) == spec_u64_to_le_bytes(r.v0_128),
        spec_operands_bytes(r).subrange(16, 24) == spec_u64_to_le_bytes(r.v0_256_0),
        spec_operands_bytes(r).subrange(24, 32) == spec_u64_to_le_bytes(r.v0_256_1),
        spec_operands_bytes(r).subrange(32, 40) == spec_u64_to_le_bytes(r.v1),
        spec_operands_bytes(r).subrange(40, 48) == spec_u64_to_le_bytes(r.v1_128),
        spec_operands_bytes(r).subrange(48, 56) == spec_u64_to_le_bytes(r.v1_256_0),
        spec_operands_bytes(r).subrange(56, 64) == spec_u64_to_le_bytes(r.v1_256_1),
        spec_operands_bytes(r).subrange(64, 72) == r.unused@,
{
    lemma_auto_spec_u64_to_from_le_bytes();
    assert(spec_operands_bytes(r).subrange(0, 8) =~= spec_u64_to_le_bytes(r.v0));
    assert(spec_operands_bytes(r).subrange(8, 16) =~= spec_u64_to_le_bytes(r.v0_128));
    assert(spec_operands_bytes(r).subrange(16, 24) =~= spec_u64_to_le_bytes(r.v0_256_0));
    assert(spec_operands_bytes(r).subrange(24, 32) =~= spec_u64_to_le_bytes(r.v0_256_1));
    assert(spec_operands_bytes(r).subrange(32, 40) =~= spec_u64_to_le_bytes(r.v1));
    assert(spec_operands_bytes(r).subrange(40, 48) =~= spec_u64_to_le_bytes(r.v1_128));
    assert(spec_operands_bytes(r).subrange(48, 56) =~= spec_u64_to_le_bytes(r.v1_256_0));
    assert(spec_operands_bytes(r).subrange(56, 64) =~= spec_u64_to_le_bytes(r.v1_256_1));
    assert(spec_operands_bytes(r).subrange(64, 72) =~= r.unused@);
}

/// Two operand records with the same image are the same record.
pub proof fn lemma_operands_bytes_injective(a: AflppCmpLogOperands, b: AflppCmpLogOperands)
    requires
        spec_operands_bytes(a) == spec_operands_bytes(b),
    ensures
        a == b,
{
    broadcast use vstd::array::group_array_axioms;

    lemma_auto_spec_u64_to_from_le_bytes();
    lemma_operands_bytes_fields(a);
    lemma_operands_bytes_fields(b);
    assert(a.v0 == b.v0) by {
        assert(spec_u64_from_le_bytes(spec_u64_to_le_bytes(a.v0)) == a.v0);
        assert(spec_u64_from_le_bytes(spec_u64_to_le_bytes(b.v0)) == b.v0);
    }
    assert(a.v0_128 == b.v0_128) by {
        assert(spec_u64_from_le_bytes(spec_u64_to_le_bytes(a.v0_128)) == a.v0_128);
        assert(spec_u64_from_le_bytes(spec_u64_to_le_bytes(b.v0_128)) == b.v0_128);
    }
    assert(a.v0_256_0 == b.v0_256_0) by {
        assert(spec_u64_from_le_bytes(spec_u64_to_le_bytes(a.v0_256_0)) == a.v0_256_0);
        assert(spec_u64_from_le_bytes(spec_u64_to_le_bytes(b.v0_256_0)) == b.v0_256_0);
    }
    assert(a.v0_256_1 == b.v0_256_1) by {
        assert(spec_u64_from_le_bytes(spec_u64_to_le_bytes(a.v0_256_1)) == a.v0_256_1);
        assert(spec_u64_from_le_bytes(spec_u64_to_le_bytes(b.v0_256_1)) == b.v0_256_1);
    }
    assert(a.v1 == b.v1) by {
        assert(spec_u64_from_le_bytes(spec_u64_to_le_bytes(a.v1)) == a.v1);
        assert(spec_u64_from_le_bytes(spec_u64_to_le_bytes(b.v1)) == b.v1);
    }
    assert(a.v1_128 == b.v1_128) by {
        assert(spec_u64_from_le_bytes(spec_u64_to_le_bytes(a.v1_128)) == a.v1_128);
        assert(spec_u64_from_le_bytes(spec_u64_to_le_bytes(b.v1_128)) == b.v1_128);
    }
    assert(a.v1_256_0 == b.v1_256_0) by {
        assert(spec_u64_from_le_bytes(spec_u64_to_le_bytes(a.v1_256_0)) == a.v1_256_0);
        assert(spec_u64_from_le_bytes(spec_u64_to_le_bytes(b.v1_256_0)) == b.v1_256_0);
    }
    assert(a.v1_256_1 == b.v1_256_1) by {
        assert(spec_u64_from_le_bytes(spec_u64_to_le_bytes(a.v1_256_1)) == a.v1_256_1);
        assert(spec_u64_from_le_bytes(spec_u64_to_le_bytes(b.v1_256_1)) == b.v1_256_1);
    }
    assert(a.unused =~= b.unused);
}

/// A routine-argument record's image holds each field's image at its
/// offset.
pub proof fn lemma_fn_operands_bytes_fields(r: AflppCmpLogFnOperands)
    ensures
        spec_fn_operands_bytes(r).subrange(0, 32) == r.v0@,
        spec_fn_operands_bytes(r).subrange(32, 64) == r.v1@,
        spec_fn_operands_bytes(r)[64] == r.v0_len,
        spec_fn_operands_bytes(r)[65] == r.v1_len,
        spec_fn_operands_bytes(r).subrange(66, 72) == r.unused@,
{
    assert(spec_fn_operands_bytes(r).subrange(0, 32) =~= r.v0@);
    assert(spec_fn_operands_bytes(r).subrange(32, 64) =~= r.v1@);
    assert(spec_fn_operands_bytes(r).subrange(66, 72) =~= r.unused@);
}

/// Two routine-argument records with the same image are the same record.
pub proof fn lemma_fn_operands_bytes_injective(a: AflppCmpLogFnOperands, b: AflppCmpLogFnOperands)
    requires
        spec_fn_operands_bytes(a) == spec_fn_operands_bytes(b),
    ensures
        a == b,
{
    broadcast use vstd::array::group_array_axioms;

    lemma_fn_operands_bytes_fields(a);
    lemma_fn_operands_bytes_fields(b);
    assert(a.v0 =~= b.v0);
    assert(a.v1 =~= b.v1);
    assert(a.unused =~= b.unused);
}

/// The serialization round-trip law: two maps with the same binary image
/// hold the same headers and the same record values at every site and
/// slot. Since `to_bytes` emits the image of a map and `from_bytes` yields
/// a map whose image is the given bytes, deserializing a serialized map
/// reproduces it. The coherence premise holds of freshly built maps, of
/// maps recorded into, and of every map `from_bytes` yields.
pub proof fn lemma_serialization_round_trip(a: &AflppCmpLogMap, b: &AflppCmpLogMap)
    requires
        a.wf(),
        b.wf(),
        a.coherent(),
        b.coherent(),
        spec_map_bytes(a) == spec_map_bytes(b),
    ensures
        a.headers_view() == b.headers_view(),
        forall|s: int| 0 <= s < CMPLOG_MAP_W ==> (a.tag_ins(s) <==> b.tag_ins(s)),
        forall|s: int, j: int|
            0 <= s < CMPLOG_MAP_W && 0 <= j < CMPLOG_MAP_H && a.tag_ins(s) ==> a.op_at(s, j)
                == b.op_at(s, j),
        forall|s: int, j: int|
            0 <= s < CMPLOG_MAP_W && 0 <= j < CMPLOG_MAP_RTN_EXTENDED_H && !a.tag_ins(s)
                ==> a.fn_at(s, j) == b.fn_at(s, j),
{
    a.lemma_wf_exposed();
    b.lemma_wf_exposed();
    let ha = spec_headers_bytes(a.headers_view());
    let hb = spec_headers_bytes(b.headers_view());
    let sa = spec_sites_bytes(a.vals_view());
    let sb = spec_sites_bytes(b.vals_view());
    lemma_headers_bytes_len(a.headers_view());
    lemma_headers_bytes_len(b.headers_view());
    lemma_sites_bytes_len(a.vals_view());
    lemma_sites_bytes_len(b.vals_view());
    assert(AFLPP_SITE_BYTES == 2304);
    assert(CMPLOG_MAP_W == 65536);
    assert(ha.len() == 131072 && hb.len() == 131072);
    assert(sa.len() == 150994944 && sb.len() == 150994944);
    assert(spec_map_bytes(a) == ha + sa);
    assert(spec_map_bytes(b) == hb + sb);
    assert(ha =~= (ha + sa).subrange(0, 131072));
    assert(hb =~= (hb + sb).subrange(0, 131072));
    assert(sa =~= (ha + sa).subrange(131072int, 151126016int));
    assert(sb =~= (hb + sb).subrange(131072int, 151126016int));
    assert(ha == hb);
    assert(sa == sb);
    assert forall|s: int| 0 <= s < CMPLOG_MAP_W implies a.headers_view()[s]
        == b.headers_view()[s] by {
        lemma_headers_bytes_index(a.headers_view(), s);
        lemma_headers_bytes_index(b.headers_view(), s);
        lemma_auto_spec_u16_to_from_le_bytes();
        let ra = a.headers_view()[s].raw;
        let rb = b.headers_view()[s].raw;
        assert(spec_u16_to_le_bytes(ra).len() == 2);
        assert(spec_u16_to_le_bytes(rb).len() == 2);
        assert(spec_u16_from_le_bytes(spec_u16_to_le_bytes(ra)) == ra);
        assert(spec_u16_from_le_bytes(spec_u16_to_le_bytes(rb)) == rb);
    }
    assert(a.headers_view() =~= b.headers_view());
    assert forall|s: int| 0 <= s < CMPLOG_MAP_W implies (a.tag_ins(s) <==> b.tag_ins(s)) by {
        assert(a.kind_of(s) == b.kind_of(s));
    }
    assert forall|s: int| 0 <= s < CMPLOG_MAP_W implies spec_site_bytes(a.vals_view()[s])
        == spec_site_bytes(b.vals_view()[s]) by {
        lemma_sites_bytes_index(a.vals_view(), s);
        lemma_sites_bytes_index(b.vals_view(), s);
    }
    assert forall|s: int, j: int|
        0 <= s < CMPLOG_MAP_W && 0 <= j < CMPLOG_MAP_H && a.tag_ins(s) implies a.op_at(s, j)
        == b.op_at(s, j) by {
        assert(spec_site_bytes(a.vals_view()[s]) == spec_site_bytes(b.vals_view()[s]));
        assert(b.tag_ins(s));
        let oa = a.vals_view()[s]->Operands_0@;
        let ob = b.vals_view()[s]->Operands_0@;
        assert(spec_ops_seq_bytes(oa) == spec_ops_seq_bytes(ob));
        lemma_ops_seq_bytes_index(oa, j);
        lemma_ops_seq_bytes_index(ob, j);
        lemma_operands_bytes_injective(oa[j], ob[j]);
    }
    assert forall|s: int, j: int|
        0 <= s < CMPLOG_MAP_W && 0 <= j < CMPLOG_MAP_RTN_EXTENDED_H && !a.tag_ins(s) implies a.fn_at(
        s,
        j,
    ) == b.fn_at(s, j) by {
        assert(spec_site_bytes(a.vals_view()[s]) == spec_site_bytes(b.vals_view()[s]));
        assert(!b.tag_ins(s));
        let fa = a.vals_view()[s]->FnOperands_0@;
        let fb = b.vals_view()[s]->FnOperands_0@;
        assert(spec_fops_seq_bytes(fa) == spec_fops_seq_bytes(fb));
        lemma_fops_seq_bytes_index(fa, j);
        lemma_fops_seq_bytes_index(fb, j);
        lemma_fn_operands_bytes_injective(fa[j], fb[j]);
    }
}

/// The image of a run of sites holds each site's image at its offset.
pub proof fn lemma_sites_bytes_index(s: Seq<AflppCmpLogVals>, k: int)
    requires
        0 <= k < s.len(),
        forall|i: int| 0 <= i < s.len() ==> site_full(#[trigger] s[i]),
    ensures
        spec_sites_bytes(s).subrange(
            (AFLPP_SITE_BYTES as int) * k,
            (AFLPP_SITE_BYTES as int) * k + (AFLPP_SITE_BYTES as int),
        ) == spec_site_bytes(s[k]),
    decreases k,
{
    assert(AFLPP_SITE_BYTES == 2304);
    lemma_site_bytes_len(s[0]);
    lemma_site_bytes_len(s[k]);
    lemma_sites_bytes_len(s);
    let rest = s.drop_first();
    assert(forall|i: int| 0 <= i < rest.len() ==> site_full(#[trigger] rest[i]));
    lemma_sites_bytes_len(rest);
    if k == 0 {
        assert(spec_sites_bytes(s).subrange(0, 2304) =~= spec_site_bytes(s[0]));
    } else {
        lemma_sites_bytes_index(rest, k - 1);
        assert(rest[k - 1] == s[k]);
        let x = spec_site_bytes(s[0]);
        let y = spec_sites_bytes(rest);
        assert(spec_sites_bytes(s) == x + y);
        assert(x.len() == 2304);
        assert forall|i: int| 0 <= i < 2304 implies #[trigger] (x + y)[2304 * k + i] == y[2304 * (
        k - 1) + i] by {
            assert(2304 * k + i - 2304 == 2304 * (k - 1) + i);
        }
        assert(spec_sites_bytes(s).subrange(2304 * k, 2304 * k + 2304) =~= y.subrange(
            2304 * (k - 1),
            2304 * (k - 1) + 2304,
        ));
    }
}

} // verus!
