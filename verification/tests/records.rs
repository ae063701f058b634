use cmplog::AflppCmpLogFnOperands;
use cmplog::AflppCmpLogOperands;
use cmplog::CmplogBytes;
use cmplog::CmpLogInstruction;
use cmplog::CmpLogRoutine;

#[test]
fn operands_new_keeps_values() {
    let r = AflppCmpLogOperands::new(7, 9);
    assert_eq!(r.v0(), 7);
    assert_eq!(r.v1(), 9);
    assert_eq!(r.v0_128(), 0);
    assert_eq!(r.v1_128(), 0);
}

#[test]
fn operands_new_128bit_splits_limbs() {
    let v0: u128 = (5u128 << 64) | 7;
    let v1: u128 = (11u128 << 64) | 13;
    let r = AflppCmpLogOperands::new_128bit(v0, v1);
    assert_eq!(r.v0(), 7);
    assert_eq!(r.v0_128(), 5);
    assert_eq!(r.v1(), 13);
    assert_eq!(r.v1_128(), 11);
}

#[test]
fn operands_set_v0_clears_high_half() {
    let mut r = AflppCmpLogOperands::new_128bit(u128::MAX, u128::MAX);
    r.set_v0(3);
    assert_eq!(r.v0(), 3);
    assert_eq!(r.v0_128(), 0);
    assert_eq!(r.v1(), u64::MAX);
    assert_eq!(r.v1_128(), u64::MAX);
}

#[test]
fn operands_set_v1_clears_high_half() {
    let mut r = AflppCmpLogOperands::new_128bit(u128::MAX, u128::MAX);
    r.set_v1(4);
    assert_eq!(r.v1(), 4);
    assert_eq!(r.v1_128(), 0);
    assert_eq!(r.v0(), u64::MAX);
}

#[test]
fn operands_set_128bit_sides() {
    let mut r = AflppCmpLogOperands::new(0, 0);
    r.set_v0_128((21u128 << 64) | 22);
    r.set_v1_128((23u128 << 64) | 24);
    assert_eq!(r.v0(), 22);
    assert_eq!(r.v0_128(), 21);
    assert_eq!(r.v1(), 24);
    assert_eq!(r.v1_128(), 23);
}

#[test]
fn fn_operands_new_records_full_buffers() {
    let a = [0xabu8; 32];
    let b = [0xcdu8; 32];
    let r = AflppCmpLogFnOperands::new(&a, &b);
    assert_eq!(r.v0(), &a);
    assert_eq!(r.v1(), &b);
    assert_eq!(r.v0_len(), 32);
    assert_eq!(r.v1_len(), 32);
}

#[test]
fn fn_operands_setters_replace_one_side() {
    let a = [1u8; 32];
    let b = [2u8; 32];
    let mut r = AflppCmpLogFnOperands::new(&a, &b);
    let c = [3u8; 32];
    r.set_v0(&c);
    assert_eq!(r.v0(), &c);
    assert_eq!(r.v1(), &b);
    let d = [4u8; 32];
    r.set_v1(&d);
    assert_eq!(r.v1(), &d);
    assert_eq!(r.v0(), &c);
}

#[test]
fn fn_operands_new_padded_tags_true_length() {
    let r = AflppCmpLogFnOperands::new_padded(b"hi", b"there");
    assert_eq!(r.v0_len(), 2);
    assert_eq!(r.v1_len(), 5);
    assert_eq!(&r.v0()[..2], b"hi");
    assert_eq!(&r.v0()[2..], &[0u8; 30]);
    assert_eq!(&r.v1()[..5], b"there");
}

#[test]
fn cmplog_bytes_keeps_buffer_and_length() {
    let mut buf = [0u8; 32];
    buf[0] = 9;
    let v = CmplogBytes::from_buf_and_len(buf, 1);
    assert_eq!(v.buf, buf);
    assert_eq!(v.len, 1);
}

#[test]
fn native_records_are_plain_tuples() {
    let i = CmpLogInstruction(1, 2, 1);
    assert_eq!(i.0, 1);
    assert_eq!(i.1, 2);
    assert_eq!(i.2, 1);
    let r = CmpLogRoutine([5u8; 32], [6u8; 32]);
    assert_eq!(r.0, [5u8; 32]);
    assert_eq!(r.1, [6u8; 32]);
    assert_eq!(CmpLogInstruction::default(), CmpLogInstruction(0, 0, 0));
}
