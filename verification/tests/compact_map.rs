use cmplog::CmpLogError;
use cmplog::CmpLogMap;
use cmplog::CmpMap;
use cmplog::CmpValues;
use cmplog::CMPLOG_MAP_H;
use cmplog::CMPLOG_MAP_RTN_H;
use cmplog::CMPLOG_MAP_W;

#[test]
fn compact_len_is_site_count() {
    let m = CmpLogMap::new();
    assert_eq!(m.len(), CMPLOG_MAP_W);
}

#[test]
fn compact_round_trip_u8() {
    let mut m = CmpLogMap::new();
    m.record_instruction(3, 0, 8, 10, false);
    assert_eq!(m.executions_for(3), 1);
    assert_eq!(m.usable_executions_for(3), 1);
    assert_eq!(m.values_of(3, 0), Some(CmpValues::U8((8, 10, false))));
}

#[test]
fn compact_round_trip_u16() {
    let mut m = CmpLogMap::new();
    m.record_instruction(11, 1, 500, 70000, true);
    // 70000 truncates to 70000 - 65536 = 4464 at 16-bit width
    assert_eq!(m.values_of(11, 0), Some(CmpValues::U16((500, 4464, true))));
}

#[test]
fn compact_round_trip_u32() {
    let mut m = CmpLogMap::new();
    m.record_instruction(4, 3, 1000, 1000, true);
    assert_eq!(m.values_of(4, 0), Some(CmpValues::U32((1000, 1000, true))));
}

#[test]
fn compact_round_trip_u64() {
    let mut m = CmpLogMap::new();
    m.record_instruction(9, 7, 0xdead_beef_0000_0001, 42, false);
    assert_eq!(
        m.values_of(9, 0),
        Some(CmpValues::U64((0xdead_beef_0000_0001, 42, false)))
    );
}

#[test]
fn compact_round_trip_routine() {
    let mut m = CmpLogMap::new();
    m.record_routine(17, b"hello", b"world");
    assert_eq!(m.executions_for(17), 1);
    let v = m.values_of(17, 0);
    match v {
        Some(CmpValues::Bytes((a, b))) => {
            // the compact format length-tags both operands with the full
            // buffer size
            assert_eq!(a.len, 32);
            assert_eq!(b.len, 32);
            assert_eq!(&a.buf[..5], b"hello");
            assert_eq!(&b.buf[..5], b"world");
            assert_eq!(&a.buf[5..], &[0u8; 27]);
            assert_eq!(&b.buf[5..], &[0u8; 27]);
        }
        other => panic!("expected Bytes, got {:?}", other),
    }
}

#[test]
fn compact_usable_capped_at_instruction_height() {
    let mut m = CmpLogMap::new();
    for n in 0..40u64 {
        m.record_instruction(6, 7, n, n + 1, false);
    }
    assert_eq!(m.executions_for(6), 40);
    assert_eq!(m.usable_executions_for(6), CMPLOG_MAP_H);
}

#[test]
fn compact_usable_capped_at_routine_height() {
    let mut m = CmpLogMap::new();
    for _ in 0..20 {
        m.record_routine(8, b"abc", b"def");
    }
    assert_eq!(m.executions_for(8), 20);
    assert_eq!(m.usable_executions_for(8), CMPLOG_MAP_RTN_H);
}

#[test]
fn compact_slot_ring_overwrites() {
    let mut m = CmpLogMap::new();
    for n in 0..(CMPLOG_MAP_H as u64 + 1) {
        m.record_instruction(5, 7, n, 0, false);
    }
    // the 33rd record wrapped around into slot 0
    assert_eq!(
        m.values_of(5, 0),
        Some(CmpValues::U64((CMPLOG_MAP_H as u64, 0, false)))
    );
    assert_eq!(m.values_of(5, 1), Some(CmpValues::U64((1, 0, false))));
}

#[test]
fn compact_kind_switch_restarts_site() {
    let mut m = CmpLogMap::new();
    for n in 0..5u64 {
        m.record_instruction(12, 7, n, n, false);
    }
    m.record_routine(12, b"xy", b"z");
    assert_eq!(m.executions_for(12), 1);
    assert_eq!(m.usable_executions_for(12), 1);
    match m.values_of(12, 0) {
        Some(CmpValues::Bytes((a, b))) => {
            assert_eq!(&a.buf[..2], b"xy");
            assert_eq!(&b.buf[..1], b"z");
        }
        other => panic!("expected Bytes, got {:?}", other),
    }
}

#[test]
fn compact_unsupported_widths_decode_to_none() {
    let mut m = CmpLogMap::new();
    m.record_instruction(21, 15, 1, 2, false);
    m.record_instruction(22, 31, 1, 2, false);
    m.record_instruction(23, 63, 1, 2, false);
    assert_eq!(m.values_of(21, 0), None);
    assert_eq!(m.values_of(22, 0), None);
    assert_eq!(m.values_of(23, 0), None);
    assert_eq!(m.checked_values_of(21, 0), Ok(None));
}

#[test]
fn compact_invalid_shape_is_fatal() {
    let mut m = CmpLogMap::new();
    m.record_instruction(2, 5, 1, 2, false);
    assert_eq!(
        m.checked_values_of(2, 0),
        Err(CmpLogError::InvalidShape(5))
    );
}

#[test]
fn compact_valid_shape_checked_matches_values_of() {
    let mut m = CmpLogMap::new();
    m.record_instruction(30, 0, 7, 9, true);
    assert_eq!(
        m.checked_values_of(30, 0),
        Ok(Some(CmpValues::U8((7, 9, true))))
    );
}

#[test]
fn compact_reset_clears_hits() {
    let mut m = CmpLogMap::new();
    m.record_instruction(1, 0, 1, 2, false);
    m.record_routine(2, b"a", b"b");
    m.record_instruction(CMPLOG_MAP_W - 1, 7, 3, 4, true);
    assert!(m.reset().is_ok());
    for site in 0..CMPLOG_MAP_W {
        assert_eq!(m.executions_for(site), 0);
        assert_eq!(m.usable_executions_for(site), 0);
    }
}

#[test]
fn compact_reset_is_idempotent() {
    let mut m = CmpLogMap::new();
    m.record_instruction(1, 0, 1, 2, false);
    m.record_routine(40, b"stale", b"data");
    assert!(m.reset().is_ok());
    assert!(m.reset().is_ok());
    for site in 0..CMPLOG_MAP_W {
        assert_eq!(m.executions_for(site), 0);
    }
    // the map is fully usable again after clearing
    m.record_instruction(40, 3, 5, 6, false);
    assert_eq!(m.executions_for(40), 1);
    assert_eq!(m.values_of(40, 0), Some(CmpValues::U32((5, 6, false))));
}

#[test]
fn compact_default_is_cleared() {
    let m = CmpLogMap::default();
    assert_eq!(m.executions_for(0), 0);
    assert_eq!(m.executions_for(CMPLOG_MAP_W - 1), 0);
}
