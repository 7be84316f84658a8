//! A small concrete bit vector.
//!
//! [`BitVec`] stores one `bool` per bit and implements the [`Bits`] and
//! [`BitSliceable`] capabilities, so the logic views of
//! [`crate::adapter`] can be built over it and their results
//! materialized.

use crate::bits::{block_bit, lemma_block_bit_set, lemma_block_bit_zero, BitSliceable, Bits};
use vstd::prelude::*;

verus! {

/// A bit vector holding its bits directly, in position order.
#[derive(Clone, Debug)]
pub struct BitVec {
    data: Vec<bool>,
}

impl BitVec {
    /// Builds a bit vector from explicit bit values.
    pub fn from_bools(data: Vec<bool>) -> (r: BitVec)
        ensures
            r.inv(),
            r.bits() == data@,
    {
        BitVec { data }
    }

    /// Materializes any bit sequence, bit by bit.
    pub fn from_bits<T: Bits>(src: &T) -> (r: BitVec)
        requires
            src.inv(),
        ensures
            r.inv(),
            r.bits() == src.bits(),
    {
        let len = src.bit_len();
        let mut data: Vec<bool> = Vec::new();
        let mut i: u64 = 0;
        while i < len
            invariant
                i <= len,
                len as nat == src.bits().len(),
                src.inv(),
                data@ == src.bits().subrange(0, i as int),
            decreases len - i,
        {
            let b = src.get_bit(i);
            data.push(b);
            proof {
                assert(src.bits().subrange(0, i + 1) =~= src.bits().subrange(0, i as int).push(
                    src.bits()[i as int],
                ));
            }
            i = i + 1;
        }
        proof {
            assert(src.bits().subrange(0, len as int) =~= src.bits());
        }
        BitVec { data }
    }

    /// The bit values, in position order.
    pub fn to_bools(&self) -> (r: Vec<bool>)
        ensures
            r@ == self.bits(),
    {
        let n = self.data.len();
        let mut out: Vec<bool> = Vec::new();
        let mut i: usize = 0;
        while i < n
            invariant
                i <= n,
                n == self.data@.len(),
                out@ == self.data@.subrange(0, i as int),
            decreases n - i,
        {
            let b = self.data[i];
            out.push(b);
            proof {
                assert(self.data@.subrange(0, i + 1) =~= self.data@.subrange(0, i as int).push(
                    self.data@[i as int],
                ));
            }
            i = i + 1;
        }
        proof {
            assert(self.data@.subrange(0, n as int) =~= self.data@);
        }
        out
    }
}

impl Bits for BitVec {
    closed spec fn bits(&self) -> Seq<bool> {
        self.data@
    }

    open spec fn inv(&self) -> bool {
        true
    }

    fn bit_len(&self) -> (r: u64) {
        self.data.len() as u64
    }

    fn get_bit(&self, position: u64) -> (r: bool) {
        let n = self.data.len();
        assert(position < n as u64);
        self.data[position as usize]
    }

    fn get_block(&self, position: usize) -> (r: u64) {
        let n = self.data.len();
        let base = position * 64;
        let mut r: u64 = 0;
        let mut j: usize = 0;
        proof {
            assert forall|k: u64| k < 64 implies !(#[trigger] block_bit(0u64, k)) by {
                lemma_block_bit_zero(k);
            }
        }
        while j < 64
            invariant
                j <= 64,
                base == (position as int) * 64,
                base < n,
                n == self.data@.len(),
                forall|k: u64|
                    k < j && base + k < n ==> #[trigger] block_bit(r, k) == self.data@[base + k],
                forall|k: u64| j <= k < 64 ==> !(#[trigger] block_bit(r, k)),
            decreases 64 - j,
        {
            if j < n - base {
                if self.data[base + j] {
                    let ghost r0 = r;
                    r = r | (1u64 << (j as u64));
                    proof {
                        assert forall|k: u64| k < 64 implies #[trigger] block_bit(r, k) == (if k
                            == j {
                            true
                        } else {
                            block_bit(r0, k)
                        }) by {
                            lemma_block_bit_set(r0, j as u64, k);
                        }
                    }
                }
            }
            j = j + 1;
        }
        r
    }
}

impl BitSliceable for BitVec {
    type Slice = BitVec;

    fn bit_slice(self, start: u64, end: u64) -> (r: BitVec) {
        (&self).bit_slice(start, end)
    }
}

impl<'a> BitSliceable for &'a BitVec {
    type Slice = BitVec;

    fn bit_slice(self, start: u64, end: u64) -> (r: BitVec) {
        let n = self.data.len();
        let s = start as usize;
        let e = end as usize;
        let mut data: Vec<bool> = Vec::new();
        let mut i: usize = s;
        while i < e
            invariant
                s <= i <= e,
                e <= n,
                n == self.data@.len(),
                s == start as int,
                e == end as int,
                data@ == self.data@.subrange(s as int, i as int),
            decreases e - i,
        {
            let b = self.data[i];
            data.push(b);
            proof {
                assert(self.data@.subrange(s as int, i + 1) =~= self.data@.subrange(
                    s as int,
                    i as int,
                ).push(self.data@[i as int]));
            }
            i = i + 1;
        }
        BitVec { data }
    }
}

} // verus!
