use cmplog::AFLPP_MAP_BYTES;
use cmplog::CMPLOG_KIND_INS;
use cmplog::CMPLOG_KIND_RTN;
use cmplog::CMPLOG_MAP_H;
use cmplog::CMPLOG_MAP_RTN_EXTENDED_H;
use cmplog::CMPLOG_MAP_RTN_H;
use cmplog::CMPLOG_MAP_SIZE;
use cmplog::CMPLOG_MAP_W;
use cmplog::CMPLOG_RTN_LEN;

#[test]
fn layout_constants_agree() {
    assert_eq!(CMPLOG_MAP_W, 65536);
    assert_eq!(CMPLOG_MAP_H, 32);
    assert_eq!(CMPLOG_MAP_SIZE, CMPLOG_MAP_W * CMPLOG_MAP_H);
    assert_eq!(CMPLOG_RTN_LEN, 32);
    // the routine capacity is the instruction payload budget (24-byte
    // records) refitted with 64-byte routine records
    assert_eq!(CMPLOG_MAP_RTN_H, 12);
    // wire records are 72 bytes under either representation
    assert_eq!(CMPLOG_MAP_RTN_EXTENDED_H, 32);
    assert_eq!(AFLPP_MAP_BYTES, CMPLOG_MAP_W * 2 + CMPLOG_MAP_W * CMPLOG_MAP_H * 72);
    assert_eq!(CMPLOG_KIND_INS, 0);
    assert_eq!(CMPLOG_KIND_RTN, 1);
}
