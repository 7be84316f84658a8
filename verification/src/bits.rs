//! The bit-addressable-sequence capability and its mathematical model.
//!
//! A value satisfying [`Bits`] is modelled as a `Seq<bool>` of its bit
//! values, in position order. Blocks are 64 bits wide; bit `j` of the
//! block at index `i` is the bit at position `64 * i + j`.

use vstd::prelude::*;

verus! {

/// True when bit `j` of block `b` is set.
pub open spec fn block_bit(b: u64, j: u64) -> bool {
    (b >> j) & 1 == 1
}

/// The smaller of two lengths: the reconciled length of a binary adapter.
pub open spec fn min_len(a: nat, b: nat) -> nat {
    if a <= b {
        a
    } else {
        b
    }
}

/// Bit-wise complement of a bit sequence (same length).
pub open spec fn not_bits(s: Seq<bool>) -> Seq<bool> {
    Seq::new(s.len(), |i: int| !s[i])
}

/// Position-wise conjunction, truncated to the shorter operand.
pub open spec fn and_bits(s: Seq<bool>, t: Seq<bool>) -> Seq<bool> {
    Seq::new(min_len(s.len(), t.len()), |i: int| s[i] && t[i])
}

/// Position-wise disjunction, truncated to the shorter operand.
pub open spec fn or_bits(s: Seq<bool>, t: Seq<bool>) -> Seq<bool> {
    Seq::new(min_len(s.len(), t.len()), |i: int| s[i] || t[i])
}

/// Position-wise exclusive or, truncated to the shorter operand.
pub open spec fn xor_bits(s: Seq<bool>, t: Seq<bool>) -> Seq<bool> {
    Seq::new(min_len(s.len(), t.len()), |i: int| s[i] != t[i])
}

/// Complementing a block complements each of its bits.
pub proof fn lemma_block_bit_not(b: u64, j: u64)
    requires
        j < 64,
    ensures
        block_bit(!b, j) == !block_bit(b, j),
{
    assert((((!b) >> j) & 1 == 1) == !((b >> j) & 1 == 1)) by (bit_vector)
        requires
            j < 64,
    ;
}

/// `&` on blocks is `&&` on each of their bits.
pub proof fn lemma_block_bit_and(x: u64, y: u64, j: u64)
    requires
        j < 64,
    ensures
        block_bit(x & y, j) == (block_bit(x, j) && block_bit(y, j)),
{
    assert((((x & y) >> j) & 1 == 1) == (((x >> j) & 1 == 1) && ((y >> j) & 1 == 1)))
        by (bit_vector);
}

/// `|` on blocks is `||` on each of their bits.
pub proof fn lemma_block_bit_or(x: u64, y: u64, j: u64)
    requires
        j < 64,
    ensures
        block_bit(x | y, j) == (block_bit(x, j) || block_bit(y, j)),
{
    assert((((x | y) >> j) & 1 == 1) == (((x >> j) & 1 == 1) || ((y >> j) & 1 == 1)))
        by (bit_vector);
}

/// `^` on blocks is inequality on each of their bits.
pub proof fn lemma_block_bit_xor(x: u64, y: u64, j: u64)
    requires
        j < 64,
    ensures
        block_bit(x ^ y, j) == (block_bit(x, j) != block_bit(y, j)),
{
    assert((((x ^ y) >> j) & 1 == 1) == (((x >> j) & 1 == 1) != ((y >> j) & 1 == 1)))
        by (bit_vector);
}

/// Every bit of the zero block is clear.
pub proof fn lemma_block_bit_zero(j: u64)
    requires
        j < 64,
    ensures
        !block_bit(0u64, j),
{
    assert(((0u64 >> j) & 1) != 1) by (bit_vector);
}

/// Setting bit `j` of a block sets that bit and leaves the others as they were.
pub proof fn lemma_block_bit_set(b: u64, j: u64, k: u64)
    requires
        j < 64,
        k < 64,
    ensures
        block_bit(b | (1u64 << j), j),
        k != j ==> block_bit(b | (1u64 << j), k) == block_bit(b, k),
{
    assert((((b | (1u64 << j)) >> j) & 1 == 1)) by (bit_vector)
        requires
            j < 64,
    ;
    assert(k != j ==> (((b | (1u64 << j)) >> k) & 1 == 1) == ((b >> k) & 1 == 1)) by (bit_vector)
        requires
            j < 64 && k < 64,
    ;
}

/// Read-only access to a sequence of bits, by single position and by
/// 64-bit block. A block need only agree with the bit sequence at the
/// positions that lie below the bit length; any higher bits of the last
/// block are unconstrained.
pub trait Bits {
    /// The sequence of bit values this operand denotes.
    spec fn bits(&self) -> Seq<bool>;

    /// Well-formedness of the operand; every accessor assumes it.
    spec fn inv(&self) -> bool;

    /// The number of bits.
    fn bit_len(&self) -> (r: u64)
        requires
            self.inv(),
        ensures
            r as nat == self.bits().len(),
    ;

    /// The bit at `position`.
    fn get_bit(&self, position: u64) -> (r: bool)
        requires
            self.inv(),
            (position as nat) < self.bits().len(),
        ensures
            r == self.bits()[position as int],
    ;

    /// The 64-bit block at block index `position`: bit `j` of the result
    /// is the bit at position `64 * position + j`, for every such
    /// position below the bit length.
    fn get_block(&self, position: usize) -> (r: u64)
        requires
            self.inv(),
            (position as nat) * 64 < self.bits().len(),
        ensures
            forall|j: u64|
                j < 64 && (position as int) * 64 + j < self.bits().len() ==> #[trigger] block_bit(
                    r,
                    j,
                ) == self.bits()[(position as int) * 64 + j],
    ;
}

impl<'a, T: Bits> Bits for &'a T {
    open spec fn bits(&self) -> Seq<bool> {
        (**self).bits()
    }

    open spec fn inv(&self) -> bool {
        (**self).inv()
    }

    fn bit_len(&self) -> (r: u64) {
        (**self).bit_len()
    }

    fn get_bit(&self, position: u64) -> (r: bool) {
        (**self).get_bit(position)
    }

    fn get_block(&self, position: usize) -> (r: u64) {
        (**self).get_block(position)
    }
}

/// The range-slicing capability: a narrower view over the bit positions
/// `start..end`, re-based so that position 0 of the slice is position
/// `start` of the original.
pub trait BitSliceable: Bits + Sized {
    /// The kind of value a slice produces; it satisfies [`Bits`] again.
    type Slice: Bits;

    /// The bits of `self` restricted to `start..end`.
    fn bit_slice(self, start: u64, end: u64) -> (r: Self::Slice)
        requires
            self.inv(),
            start <= end,
            (end as nat) <= self.bits().len(),
        ensures
            r.inv(),
            r.bits() == self.bits().subrange(start as int, end as int),
    ;
}

} // verus!
