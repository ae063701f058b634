use cmplog::AflppCmpLogHeader;
use cmplog::AflppCmpLogMap;
use cmplog::AflppCmpLogVals;
use cmplog::CmpLogError;
use cmplog::CmpMap;
use cmplog::CmpValues;
use cmplog::CMPLOG_MAP_H;
use cmplog::CMPLOG_MAP_RTN_H;
use cmplog::CMPLOG_MAP_W;

#[test]
fn wire_header_bitfield_packs_and_unpacks() {
    let h = AflppCmpLogHeader::new(3, 7, 1, 2);
    assert_eq!(h.hits(), 3);
    assert_eq!(h.shape(), 7);
    assert_eq!(h.type_(), 1);
    assert_eq!(h.attribute(), 2);
    // 3 | 7 << 6 | 1 << 11 | 2 << 12
    assert_eq!(h.raw, 3 | (7 << 6) | (1 << 11) | (2 << 12));
    let h2 = AflppCmpLogHeader::new_with_raw_value(h.raw);
    assert_eq!(h2.hits(), 3);
    assert_eq!(h2.shape(), 7);
    assert_eq!(h2.type_(), 1);
    assert_eq!(h2.attribute(), 2);
    assert_eq!(AflppCmpLogHeader::default().raw, 0);
}

#[test]
fn wire_round_trip_u8_reports_eq_unknown() {
    let mut m = AflppCmpLogMap::boxed();
    m.record_instruction(3, 0, 8, 10);
    assert_eq!(m.executions_for(3), 1);
    // the wire encoding carries no equality flag: decode reports false
    assert_eq!(m.values_of(3, 0), Some(CmpValues::U8((8, 10, false))));
}

#[test]
fn wire_round_trip_u32() {
    let mut m = AflppCmpLogMap::boxed();
    m.record_instruction(4, 3, 1000, 70000);
    assert_eq!(m.values_of(4, 0), Some(CmpValues::U32((1000, 70000, false))));
}

#[test]
fn wire_round_trip_u64() {
    let mut m = AflppCmpLogMap::boxed();
    m.record_instruction(64, 7, u64::MAX, 1);
    assert_eq!(m.values_of(64, 0), Some(CmpValues::U64((u64::MAX, 1, false))));
}

#[test]
fn wire_round_trip_routine_masks_length() {
    let mut m = AflppCmpLogMap::boxed();
    m.record_routine(9, b"hello", b"world");
    match m.values_of(9, 0) {
        Some(CmpValues::Bytes((a, b))) => {
            // the wire format length-tags each operand with its true length
            assert_eq!(a.len, 5);
            assert_eq!(b.len, 5);
            assert_eq!(&a.buf[..5], b"hello");
            assert_eq!(&b.buf[..5], b"world");
            assert_eq!(&a.buf[5..], &[0u8; 27]);
        }
        other => panic!("expected Bytes, got {:?}", other),
    }
}

#[test]
fn wire_hits_saturate_at_six_bits() {
    let mut m = AflppCmpLogMap::boxed();
    for n in 0..70u64 {
        m.record_instruction(6, 7, n, 0);
    }
    assert_eq!(m.executions_for(6), 63);
    assert_eq!(m.usable_executions_for(6), CMPLOG_MAP_H);
}

#[test]
fn wire_routine_usable_capped_at_routine_height() {
    let mut m = AflppCmpLogMap::boxed();
    for _ in 0..30 {
        m.record_routine(8, b"abc", b"def");
    }
    assert_eq!(m.executions_for(8), 30);
    assert_eq!(m.usable_executions_for(8), CMPLOG_MAP_RTN_H);
}

#[test]
fn wire_unsupported_widths_decode_to_none() {
    let mut m = AflppCmpLogMap::boxed();
    m.record_instruction(21, 15, 1, 2);
    m.record_instruction(22, 31, 1, 2);
    assert_eq!(m.values_of(21, 0), None);
    assert_eq!(m.values_of(22, 0), None);
    assert_eq!(m.checked_values_of(21, 0), Ok(None));
}

#[test]
fn wire_invalid_shape_is_fatal() {
    let mut m = AflppCmpLogMap::boxed();
    m.record_instruction(2, 5, 1, 2);
    assert_eq!(
        m.checked_values_of(2, 0),
        Err(CmpLogError::InvalidShape(5))
    );
}

#[test]
fn wire_headers_and_values_expose_the_tables() {
    let mut m = AflppCmpLogMap::boxed();
    m.record_instruction(0, 0, 1, 2);
    m.record_routine(1, b"q", b"r");
    assert_eq!(m.headers().len(), CMPLOG_MAP_W);
    assert_eq!(m.values().len(), CMPLOG_MAP_W);
    assert_eq!(m.headers()[0].type_(), 0);
    assert_eq!(m.headers()[1].type_(), 1);
    let ops = m.values()[0].operands();
    assert_eq!(ops.len(), CMPLOG_MAP_H);
    assert_eq!(ops[0].v0(), 1);
    assert_eq!(ops[0].v1(), 2);
    let fops = m.values()[1].fn_operands();
    assert_eq!(fops[0].v0_len(), 1);
    assert_eq!(&fops[0].v0()[..1], b"q");
    match &m.values()[0] {
        AflppCmpLogVals::Operands(v) => assert_eq!(v.len(), CMPLOG_MAP_H),
        AflppCmpLogVals::FnOperands(_) => panic!("instruction site holds operand records"),
    }
}

#[test]
fn wire_reset_clears_hits_and_is_idempotent() {
    let mut m = AflppCmpLogMap::boxed();
    m.record_instruction(1, 0, 1, 2);
    m.record_routine(2, b"a", b"b");
    assert!(m.reset().is_ok());
    assert!(m.reset().is_ok());
    for site in 0..CMPLOG_MAP_W {
        assert_eq!(m.executions_for(site), 0);
        assert_eq!(m.usable_executions_for(site), 0);
        assert_eq!(m.headers()[site].raw, 0);
    }
    m.record_instruction(2, 1, 3, 4);
    assert_eq!(m.values_of(2, 0), Some(CmpValues::U16((3, 4, false))));
}

#[test]
fn wire_mut_accessors_write_through() {
    let mut m = AflppCmpLogMap::boxed();
    m.record_instruction(0, 7, 1, 2);
    m.record_routine(1, b"aa", b"bb");
    m.values_mut()[0].operands_mut()[0].set_v0(100);
    m.values_mut()[1].fn_operands_mut()[0].set_v1(&[9u8; 32]);
    assert_eq!(m.values_of(0, 0), Some(CmpValues::U64((100, 2, false))));
    match m.values_of(1, 0) {
        Some(CmpValues::Bytes((a, b))) => {
            assert_eq!(&a.buf[..2], b"aa");
            assert_eq!(b.buf, [9u8; 32]);
            assert_eq!(b.len, 32);
        }
        other => panic!("expected Bytes, got {:?}", other),
    }
    let h = AflppCmpLogHeader::new(2, 7, 0, 0);
    m.headers_mut()[0] = h;
    assert_eq!(m.executions_for(0), 2);
}
