use bv::adapter::BitsLogic;
use bv::bits::{BitSliceable, Bits};
use bv::bitvec::BitVec;

fn assert_0001<T: Bits>(bits: &T) {
    assert_eq!(bits.bit_len(), 4);

    assert!(!bits.get_bit(0));
    assert!(!bits.get_bit(1));
    assert!(!bits.get_bit(2));
    assert!(bits.get_bit(3));

    let bv = BitVec::from_bits(bits);
    assert_eq!(bv.to_bools(), vec![false, false, false, true]);
}

#[test]
fn simple_not() {
    let bv = BitVec::from_bools(vec![true, true, true, false]);
    let not_bits = bv.bits_not();
    assert_0001(&not_bits);
}

#[test]
fn simple_and() {
    let bv1 = BitVec::from_bools(vec![false, false, true, true]);
    let bv2 = BitVec::from_bools(vec![false, true, false, true]);
    let and_bits = bv1.bits_and(&bv2);
    assert_0001(&and_bits);
}

#[test]
fn and_with_same_offset() {
    let bv1 = BitVec::from_bools(vec![true, false, false, true, true]);
    let bv2 = BitVec::from_bools(vec![true, false, true, false, true]);
    let bv_slice1 = bv1.bit_slice(1, 5);
    let bv_slice2 = bv2.bit_slice(1, 5);
    let and_bits = bv_slice1.bits_and(&bv_slice2);
    assert_0001(&and_bits);
}

#[test]
fn and_with_different_offset() {
    let bv1 = BitVec::from_bools(vec![true, true, false, false, true, true]);
    let bv2 = BitVec::from_bools(vec![true, false, true, false, true]);
    let bv_slice1 = bv1.bit_slice(2, 6);
    let bv_slice2 = bv2.bit_slice(1, 5);
    let and_bits = bv_slice1.bits_and(&bv_slice2);
    assert_0001(&and_bits);
}
