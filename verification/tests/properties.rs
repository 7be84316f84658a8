use bv::adapter::BitsLogic;
use bv::bits::{BitSliceable, Bits};
use bv::bitvec::BitVec;

fn bools<T: Bits>(bits: &T) -> Vec<bool> {
    BitVec::from_bits(bits).to_bools()
}

fn block_bit_at(block: u64, j: u64) -> bool {
    (block >> j) & 1 == 1
}

#[test]
fn not_flips_every_bit() {
    let a = BitVec::from_bools(vec![false, false, true, true]);
    let not_a = a.bits_not();
    assert_eq!(not_a.bit_len(), 4);
    assert_eq!(bools(&not_a), vec![true, true, false, false]);
}

#[test]
fn binary_ops_truth_tables() {
    let a = BitVec::from_bools(vec![false, false, true, true]);
    let b = BitVec::from_bools(vec![false, true, false, true]);
    assert_eq!(bools(&a.bits_and(&b)), vec![false, false, false, true]);
    assert_eq!(bools(&a.bits_or(&b)), vec![false, true, true, true]);
    assert_eq!(bools(&a.bits_xor(&b)), vec![false, true, true, false]);
}

#[test]
fn binary_ops_reconcile_to_shorter_length() {
    let a = BitVec::from_bools(vec![true, false, true, false, true, true, false]);
    let b = BitVec::from_bools(vec![true, true, false]);
    assert_eq!(a.bits_and(&b).bit_len(), 3);
    assert_eq!(a.bits_or(&b).bit_len(), 3);
    assert_eq!(a.bits_xor(&b).bit_len(), 3);
    assert_eq!(b.bits_and(&a).bit_len(), 3);
    assert_eq!(bools(&a.bits_and(&b)), vec![true, false, false]);
    assert_eq!(bools(&a.bits_or(&b)), vec![true, true, true]);
    assert_eq!(bools(&a.bits_xor(&b)), vec![false, true, true]);
}

#[test]
fn double_negation_restores_bits() {
    let a = BitVec::from_bools(vec![true, false, false, true, true]);
    let back = a.bits_not().into_bits_not();
    assert_eq!(back.bit_len(), 5);
    assert_eq!(bools(&back), vec![true, false, false, true, true]);
}

#[test]
fn self_identities() {
    let a = BitVec::from_bools(vec![true, false, true, true, false]);
    assert_eq!(bools(&a.bits_and(&a)), vec![true, false, true, true, false]);
    assert_eq!(bools(&a.bits_or(&a)), vec![true, false, true, true, false]);
    assert_eq!(bools(&a.bits_xor(&a)), vec![false, false, false, false, false]);
}

#[test]
fn de_morgan() {
    let a = BitVec::from_bools(vec![false, false, true, true, false]);
    let b = BitVec::from_bools(vec![false, true, false, true]);
    let lhs = bools(&a.bits_and(&b).into_bits_not());
    let rhs = bools(&a.bits_not().into_bits_or(b.bits_not()));
    assert_eq!(lhs, rhs);
    assert_eq!(lhs, vec![true, true, true, false]);
}

#[test]
fn slicing_commutes_with_logic() {
    let a = BitVec::from_bools(vec![true, true, false, false, true, true]);
    let b = BitVec::from_bools(vec![true, false, true, false, true]);

    let sliced_view = a.bits_and(&b).bit_slice(1, 5);
    let view_of_slices = {
        let sa = BitVec::from_bools(vec![true, true, false, false, true, true]).bit_slice(1, 5);
        let sb = BitVec::from_bools(vec![true, false, true, false, true]).bit_slice(1, 5);
        sa.into_bits_and(sb)
    };
    assert_eq!(sliced_view.bit_len(), view_of_slices.bit_len());
    assert_eq!(bools(&sliced_view), bools(&view_of_slices));
    assert_eq!(bools(&sliced_view), vec![false, false, false, true]);
}

#[test]
fn slicing_scenario_with_offsets() {
    let a = BitVec::from_bools(vec![true, true, false, false, true, true]);
    let sa = a.bit_slice(2, 6);
    assert_eq!(sa.to_bools(), vec![false, false, true, true]);

    let b = BitVec::from_bools(vec![true, false, true, false, true]);
    let sb = b.bit_slice(1, 5);
    assert_eq!(sb.to_bools(), vec![false, true, false, true]);

    let and_bits = sa.into_bits_and(sb);
    assert_eq!(bools(&and_bits), vec![false, false, false, true]);
}

#[test]
fn consuming_constructors_match_borrowing_ones() {
    let bits = vec![true, false, true];
    let borrowed = {
        let a = BitVec::from_bools(bits.clone());
        let b = BitVec::from_bools(vec![true, true, false]);
        bools(&a.bits_xor(&b))
    };
    let consumed = {
        let a = BitVec::from_bools(bits.clone());
        let b = BitVec::from_bools(vec![true, true, false]);
        bools(&a.into_bits_xor(b))
    };
    assert_eq!(borrowed, consumed);
    assert_eq!(borrowed, vec![false, true, true]);

    let not_borrowed = {
        let a = BitVec::from_bools(bits.clone());
        bools(&a.bits_not())
    };
    let not_consumed = {
        let a = BitVec::from_bools(bits.clone());
        bools(&a.into_bits_not())
    };
    assert_eq!(not_borrowed, not_consumed);
    assert_eq!(not_borrowed, vec![false, true, false]);
}

#[test]
fn blocks_agree_with_bits_on_bitvec() {
    let mut pattern = Vec::new();
    for i in 0..70u64 {
        pattern.push(i % 3 == 0 || i % 7 == 0);
    }
    let a = BitVec::from_bools(pattern);
    for block_index in 0..2usize {
        let block = a.get_block(block_index);
        for j in 0..64u64 {
            let position = block_index as u64 * 64 + j;
            if position < a.bit_len() {
                assert_eq!(block_bit_at(block, j), a.get_bit(position));
            }
        }
    }
}

#[test]
fn blocks_agree_with_bits_on_views() {
    let mut pa = Vec::new();
    let mut pb = Vec::new();
    for i in 0..100u64 {
        pa.push(i % 2 == 0);
    }
    for i in 0..90u64 {
        pb.push(i % 5 < 2);
    }
    let a = BitVec::from_bools(pa);
    let b = BitVec::from_bools(pb);

    let not_view = a.bits_not();
    for block_index in 0..2usize {
        let block = not_view.get_block(block_index);
        for j in 0..64u64 {
            let position = block_index as u64 * 64 + j;
            if position < not_view.bit_len() {
                assert_eq!(block_bit_at(block, j), not_view.get_bit(position));
            }
        }
    }

    let and_view = a.bits_and(&b);
    let or_view = a.bits_or(&b);
    let xor_view = a.bits_xor(&b);
    for block_index in 0..2usize {
        let and_block = and_view.get_block(block_index);
        let or_block = or_view.get_block(block_index);
        let xor_block = xor_view.get_block(block_index);
        for j in 0..64u64 {
            let position = block_index as u64 * 64 + j;
            if position < and_view.bit_len() {
                assert_eq!(block_bit_at(and_block, j), and_view.get_bit(position));
                assert_eq!(block_bit_at(or_block, j), or_view.get_bit(position));
                assert_eq!(block_bit_at(xor_block, j), xor_view.get_bit(position));
            }
        }
    }
}

#[test]
fn nested_views_stay_composable() {
    let a = BitVec::from_bools(vec![true, false, true, false, true, false]);
    let b = BitVec::from_bools(vec![true, true, false, false, true, true]);
    let c = BitVec::from_bools(vec![false, true, true, true, false]);

    // ((A AND B) OR C) sliced, against the hand-computed bits.
    let abc = a.into_bits_and(b).into_bits_or(c);
    assert_eq!(abc.bit_len(), 5);
    assert_eq!(bools(&abc), vec![true, true, true, true, true]);

    let sliced = abc.bit_slice(1, 4);
    assert_eq!(sliced.bit_len(), 3);
    assert_eq!(bools(&sliced), vec![true, true, true]);
}

#[test]
fn empty_operands() {
    let a = BitVec::from_bools(vec![]);
    let b = BitVec::from_bools(vec![true, false]);
    assert_eq!(a.bits_not().bit_len(), 0);
    assert_eq!(a.bits_and(&b).bit_len(), 0);
    assert_eq!(b.bits_or(&a).bit_len(), 0);
    assert_eq!(bools(&a.bits_xor(&b)), Vec::<bool>::new());
}
