use cmplog::AflppCmpLogMap;
use cmplog::CmpMap;
use cmplog::CmpValues;
use cmplog::AFLPP_MAP_BYTES;
use cmplog::CMPLOG_MAP_W;

#[test]
fn image_has_the_fixed_size() {
    let m = AflppCmpLogMap::boxed();
    let bytes = m.to_bytes();
    assert_eq!(bytes.len(), AFLPP_MAP_BYTES);
}

#[test]
fn image_layout_headers_first_little_endian() {
    let mut m = AflppCmpLogMap::boxed();
    m.record_instruction(1, 3, 0x11, 0x22);
    let raw = m.headers()[1].raw;
    let bytes = m.to_bytes();
    assert_eq!(bytes[2], (raw & 0xff) as u8);
    assert_eq!(bytes[3], (raw >> 8) as u8);
    // the first operand's low limb sits at the start of site 1's payload
    let base = 2 * CMPLOG_MAP_W + 2304;
    assert_eq!(bytes[base], 0x11);
    assert_eq!(&bytes[base + 1..base + 8], &[0u8; 7]);
    assert_eq!(bytes[base + 32], 0x22);
}

#[test]
fn serialization_round_trip_reproduces_the_map() {
    let mut m = AflppCmpLogMap::boxed();
    m.record_instruction(0, 0, 8, 10);
    m.record_instruction(3, 7, 0xfeed_f00d_dead_beef, 77);
    m.record_instruction(3, 7, 1, 2);
    m.record_routine(5, b"hello", b"world");
    m.record_routine(5, b"spam", b"eggs");
    m.record_instruction(CMPLOG_MAP_W - 1, 3, 1000, 1000);
    let bytes = m.to_bytes();
    let m2 = AflppCmpLogMap::from_bytes(&bytes).expect("image of the right size");
    for site in [0, 3, 5, 1, 100, CMPLOG_MAP_W - 1] {
        assert_eq!(m2.headers()[site].raw, m.headers()[site].raw);
        assert_eq!(m2.executions_for(site), m.executions_for(site));
        assert_eq!(
            m2.usable_executions_for(site),
            m.usable_executions_for(site)
        );
        for slot in 0..m.usable_executions_for(site) {
            assert_eq!(m2.values_of(site, slot), m.values_of(site, slot));
        }
    }
    // and the images agree byte for byte
    let bytes2 = m2.to_bytes();
    assert_eq!(bytes, bytes2);
}

#[test]
fn length_byte_top_bit_is_masked_off() {
    let mut m = AflppCmpLogMap::boxed();
    m.record_routine(5, b"hello", b"world");
    let mut bytes = m.to_bytes();
    // overwrite the first buffer's length byte with the reserved top bit set
    let len_off = 2 * CMPLOG_MAP_W + 5 * 2304 + 64;
    assert_eq!(bytes[len_off], 5);
    bytes[len_off] = 0x85;
    let m2 = AflppCmpLogMap::from_bytes(&bytes).expect("image of the right size");
    match m2.values_of(5, 0) {
        Some(CmpValues::Bytes((a, b))) => {
            assert_eq!(a.len, 5);
            assert_eq!(b.len, 5);
            assert_eq!(&a.buf[..5], b"hello");
        }
        other => panic!("expected Bytes, got {:?}", other),
    }
}

#[test]
fn from_bytes_rejects_wrong_sizes() {
    assert!(AflppCmpLogMap::from_bytes(&[]).is_none());
    assert!(AflppCmpLogMap::from_bytes(&[0u8; 16]).is_none());
    let m = AflppCmpLogMap::boxed();
    let mut bytes = m.to_bytes();
    bytes.pop();
    assert!(AflppCmpLogMap::from_bytes(&bytes).is_none());
}
