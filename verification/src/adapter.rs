//! Lazy bit-wise logic views.
//!
//! The extension trait [`BitsLogic`], implemented for every type that
//! implements [`Bits`], builds zero-allocation views that compute NOT,
//! AND, OR or XOR of their operands on demand: each bit or block query
//! fans out to the operand(s) and combines the answers with the
//! operator's truth table. Nothing is buffered; every query recomputes
//! from the operands. Slicing a view pushes the slice down to the
//! operand(s) and rebuilds a view of the same kind, so the result stays
//! lazy.

use crate::bits::{
    and_bits, block_bit, lemma_block_bit_and, lemma_block_bit_not, lemma_block_bit_or,
    lemma_block_bit_xor, min_len, not_bits, or_bits, xor_bits, BitSliceable, Bits,
};
use crate::laws::{lemma_and_slice, lemma_not_slice, lemma_or_slice, lemma_xor_slice};
use vstd::prelude::*;

verus! {

/// Extension trait for bit-wise logical operators on bit sequences.
///
/// The methods return lazy adapter objects that query the underlying
/// operands and apply the operator as needed. Each operator comes in a
/// borrowing form and a consuming (`into_`) form; a binary operator's
/// second operand is taken by value either way, so a caller may pass it
/// owned or by reference independently of the first.
pub trait BitsLogic: Bits + Sized {
    /// A view that inverts the value of every bit of `self`.
    fn bits_not(&self) -> (r: BitsNot<&Self>)
        requires
            self.inv(),
        ensures
            r.inv(),
            r.bits() == not_bits(self.bits()),
    {
        BitsNot(self)
    }

    /// A view that inverts the value of every bit of `self`.
    ///
    /// Consumes `self`.
    fn into_bits_not(self) -> (r: BitsNot<Self>)
        requires
            self.inv(),
        ensures
            r.inv(),
            r.bits() == not_bits(self.bits()),
    {
        BitsNot(self)
    }

    /// A view of the lazy bit-wise conjunction of `self` and `other`,
    /// over the shorter of the two lengths.
    fn bits_and<Other: Bits>(&self, other: Other) -> (r: BitsAnd<&Self, Other>)
        requires
            self.inv(),
            other.inv(),
        ensures
            r.inv(),
            r.bits() == and_bits(self.bits(), other.bits()),
    {
        BitsAnd(BitsBinOp::new(self, other))
    }

    /// A view of the lazy bit-wise conjunction of `self` and `other`,
    /// over the shorter of the two lengths.
    ///
    /// Consumes `self`.
    fn into_bits_and<Other: Bits>(self, other: Other) -> (r: BitsAnd<Self, Other>)
        requires
            self.inv(),
            other.inv(),
        ensures
            r.inv(),
            r.bits() == and_bits(self.bits(), other.bits()),
    {
        BitsAnd(BitsBinOp::new(self, other))
    }

    /// A view of the lazy bit-wise disjunction of `self` and `other`,
    /// over the shorter of the two lengths.
    fn bits_or<Other: Bits>(&self, other: Other) -> (r: BitsOr<&Self, Other>)
        requires
            self.inv(),
            other.inv(),
        ensures
            r.inv(),
            r.bits() == or_bits(self.bits(), other.bits()),
    {
        BitsOr(BitsBinOp::new(self, other))
    }

    /// A view of the lazy bit-wise disjunction of `self` and `other`,
    /// over the shorter of the two lengths.
    ///
    /// Consumes `self`.
    fn into_bits_or<Other: Bits>(self, other: Other) -> (r: BitsOr<Self, Other>)
        requires
            self.inv(),
            other.inv(),
        ensures
            r.inv(),
            r.bits() == or_bits(self.bits(), other.bits()),
    {
        BitsOr(BitsBinOp::new(self, other))
    }

    /// A view of the lazy bit-wise exclusive or of `self` and `other`,
    /// over the shorter of the two lengths.
    fn bits_xor<Other: Bits>(&self, other: Other) -> (r: BitsXor<&Self, Other>)
        requires
            self.inv(),
            other.inv(),
        ensures
            r.inv(),
            r.bits() == xor_bits(self.bits(), other.bits()),
    {
        BitsXor(BitsBinOp::new(self, other))
    }

    /// A view of the lazy bit-wise exclusive or of `self` and `other`,
    /// over the shorter of the two lengths.
    ///
    /// Consumes `self`.
    fn into_bits_xor<Other: Bits>(self, other: Other) -> (r: BitsXor<Self, Other>)
        requires
            self.inv(),
            other.inv(),
        ensures
            r.inv(),
            r.bits() == xor_bits(self.bits(), other.bits()),
    {
        BitsXor(BitsBinOp::new(self, other))
    }
}

impl<T: Bits> BitsLogic for T {
}

/// The result of [`BitsLogic::bits_not`]: a view that *not*s the bits of
/// the underlying operand.
#[derive(Clone, Debug)]
pub struct BitsNot<T>(pub T);

/// The result of [`BitsLogic::bits_and`]: a view that *and*s the bits of
/// the two underlying operands.
#[derive(Clone, Debug)]
pub struct BitsAnd<T, U>(pub BitsBinOp<T, U>);

/// The result of [`BitsLogic::bits_or`]: a view that *or*s the bits of
/// the two underlying operands.
#[derive(Clone, Debug)]
pub struct BitsOr<T, U>(pub BitsBinOp<T, U>);

/// The result of [`BitsLogic::bits_xor`]: a view that *xor*s the bits of
/// the two underlying operands.
#[derive(Clone, Debug)]
pub struct BitsXor<T, U>(pub BitsBinOp<T, U>);

/// Stores the two operands of a bit-wise binary operation, along with
/// the cached length of the result: the minimum of the operands'
/// lengths, computed once at construction.
#[derive(Clone, Debug)]
pub struct BitsBinOp<T, U> {
    /// The first operand.
    pub op1: T,
    /// The second operand.
    pub op2: U,
    /// The reconciled length; see [`BitsBinOp::wf`].
    pub len: u64,
}

impl<T: Bits, U: Bits> BitsBinOp<T, U> {
    /// Well-formedness: both operands are well formed and the cached
    /// length is the minimum of their bit lengths.
    pub open spec fn wf(&self) -> bool {
        &&& self.op1.inv()
        &&& self.op2.inv()
        &&& self.len as nat == min_len(self.op1.bits().len(), self.op2.bits().len())
    }

    /// Pairs the two operands and caches the reconciled length.
    pub fn new(op1: T, op2: U) -> (r: Self)
        requires
            op1.inv(),
            op2.inv(),
        ensures
            r.wf(),
            r.op1 == op1,
            r.op2 == op2,
    {
        let l1 = op1.bit_len();
        let l2 = op2.bit_len();
        let len = if l1 <= l2 {
            l1
        } else {
            l2
        };
        BitsBinOp { op1, op2, len }
    }

    /// The bit of the first operand at `position`: a direct pass-through.
    pub fn bit1(&self, position: u64) -> (r: bool)
        requires
            self.wf(),
            (position as nat) < self.op1.bits().len(),
        ensures
            r == self.op1.bits()[position as int],
    {
        self.op1.get_bit(position)
    }

    /// The bit of the second operand at `position`: a direct pass-through.
    pub fn bit2(&self, position: u64) -> (r: bool)
        requires
            self.wf(),
            (position as nat) < self.op2.bits().len(),
        ensures
            r == self.op2.bits()[position as int],
    {
        self.op2.get_bit(position)
    }

    /// The block of the first operand at block index `position`: a
    /// direct pass-through.
    pub fn block1(&self, position: usize) -> (r: u64)
        requires
            self.wf(),
            (position as nat) * 64 < self.op1.bits().len(),
        ensures
            forall|j: u64|
                j < 64 && (position as int) * 64 + j < self.op1.bits().len()
                    ==> #[trigger] block_bit(r, j) == self.op1.bits()[(position as int) * 64 + j],
    {
        self.op1.get_block(position)
    }

    /// The block of the second operand at block index `position`: a
    /// direct pass-through.
    pub fn block2(&self, position: usize) -> (r: u64)
        requires
            self.wf(),
            (position as nat) * 64 < self.op2.bits().len(),
        ensures
            forall|j: u64|
                j < 64 && (position as int) * 64 + j < self.op2.bits().len()
                    ==> #[trigger] block_bit(r, j) == self.op2.bits()[(position as int) * 64 + j],
    {
        self.op2.get_block(position)
    }
}

impl<T: Bits> Bits for BitsNot<T> {
    open spec fn bits(&self) -> Seq<bool> {
        not_bits(self.0.bits())
    }

    open spec fn inv(&self) -> bool {
        self.0.inv()
    }

    fn bit_len(&self) -> (r: u64) {
        self.0.bit_len()
    }

    fn get_bit(&self, position: u64) -> (r: bool) {
        !self.0.get_bit(position)
    }

    fn get_block(&self, position: usize) -> (r: u64) {
        let b = self.0.get_block(position);
        proof {
            assert forall|j: u64| j < 64 implies #[trigger] block_bit(!b, j) == !block_bit(
                b,
                j,
            ) by {
                lemma_block_bit_not(b, j);
            }
        }
        !b
    }
}

impl<T: Bits, U: Bits> Bits for BitsAnd<T, U> {
    open spec fn bits(&self) -> Seq<bool> {
        and_bits(self.0.op1.bits(), self.0.op2.bits())
    }

    open spec fn inv(&self) -> bool {
        self.0.wf()
    }

    fn bit_len(&self) -> (r: u64) {
        self.0.len
    }

    fn get_bit(&self, position: u64) -> (r: bool) {
        self.0.bit1(position) && self.0.bit2(position)
    }

    fn get_block(&self, position: usize) -> (r: u64) {
        let b1 = self.0.block1(position);
        let b2 = self.0.block2(position);
        proof {
            assert forall|j: u64| j < 64 implies #[trigger] block_bit(b1 & b2, j) == (block_bit(
                b1,
                j,
            ) && block_bit(b2, j)) by {
                lemma_block_bit_and(b1, b2, j);
            }
        }
        b1 & b2
    }
}

impl<T: Bits, U: Bits> Bits for BitsOr<T, U> {
    open spec fn bits(&self) -> Seq<bool> {
        or_bits(self.0.op1.bits(), self.0.op2.bits())
    }

    open spec fn inv(&self) -> bool {
        self.0.wf()
    }

    fn bit_len(&self) -> (r: u64) {
        self.0.len
    }

    fn get_bit(&self, position: u64) -> (r: bool) {
        self.0.bit1(position) || self.0.bit2(position)
    }

    fn get_block(&self, position: usize) -> (r: u64) {
        let b1 = self.0.block1(position);
        let b2 = self.0.block2(position);
        proof {
            assert forall|j: u64| j < 64 implies #[trigger] block_bit(b1 | b2, j) == (block_bit(
                b1,
                j,
            ) || block_bit(b2, j)) by {
                lemma_block_bit_or(b1, b2, j);
            }
        }
        b1 | b2
    }
}

impl<T: Bits, U: Bits> Bits for BitsXor<T, U> {
    open spec fn bits(&self) -> Seq<bool> {
        xor_bits(self.0.op1.bits(), self.0.op2.bits())
    }

    open spec fn inv(&self) -> bool {
        self.0.wf()
    }

    fn bit_len(&self) -> (r: u64) {
        self.0.len
    }

    fn get_bit(&self, position: u64) -> (r: bool) {
        self.0.bit1(position) ^ self.0.bit2(position)
    }

    fn get_block(&self, position: usize) -> (r: u64) {
        let b1 = self.0.block1(position);
        let b2 = self.0.block2(position);
        proof {
            assert forall|j: u64| j < 64 implies #[trigger] block_bit(b1 ^ b2, j) == (block_bit(
                b1,
                j,
            ) != block_bit(b2, j)) by {
                lemma_block_bit_xor(b1, b2, j);
            }
        }
        b1 ^ b2
    }
}

impl<T: BitSliceable> BitSliceable for BitsNot<T> {
    type Slice = BitsNot<T::Slice>;

    fn bit_slice(self, start: u64, end: u64) -> (r: Self::Slice) {
        let ghost a = self.0.bits();
        let inner = self.0.bit_slice(start, end);
        proof {
            lemma_not_slice(a, start as int, end as int);
        }
        BitsNot(inner)
    }
}

impl<T: BitSliceable, U: BitSliceable> BitSliceable for BitsAnd<T, U> {
    type Slice = BitsAnd<T::Slice, U::Slice>;

    fn bit_slice(self, start: u64, end: u64) -> (r: Self::Slice) {
        let ghost a = self.0.op1.bits();
        let ghost b = self.0.op2.bits();
        let BitsAnd(bin) = self;
        let BitsBinOp { op1, op2, .. } = bin;
        let s1 = op1.bit_slice(start, end);
        let s2 = op2.bit_slice(start, end);
        proof {
            lemma_and_slice(a, b, start as int, end as int);
        }
        BitsAnd(BitsBinOp::new(s1, s2))
    }
}

impl<T: BitSliceable, U: BitSliceable> BitSliceable for BitsOr<T, U> {
    type Slice = BitsOr<T::Slice, U::Slice>;

    fn bit_slice(self, start: u64, end: u64) -> (r: Self::Slice) {
        let ghost a = self.0.op1.bits();
        let ghost b = self.0.op2.bits();
        let BitsOr(bin) = self;
        let BitsBinOp { op1, op2, .. } = bin;
        let s1 = op1.bit_slice(start, end);
        let s2 = op2.bit_slice(start, end);
        proof {
            lemma_or_slice(a, b, start as int, end as int);
        }
        BitsOr(BitsBinOp::new(s1, s2))
    }
}

impl<T: BitSliceable, U: BitSliceable> BitSliceable for BitsXor<T, U> {
    type Slice = BitsXor<T::Slice, U::Slice>;

    fn bit_slice(self, start: u64, end: u64) -> (r: Self::Slice) {
        let ghost a = self.0.op1.bits();
        let ghost b = self.0.op2.bits();
        let BitsXor(bin) = self;
        let BitsBinOp { op1, op2, .. } = bin;
        let s1 = op1.bit_slice(start, end);
        let s2 = op2.bit_slice(start, end);
        proof {
            lemma_xor_slice(a, b, start as int, end as int);
        }
        BitsXor(BitsBinOp::new(s1, s2))
    }
}

} // verus!
