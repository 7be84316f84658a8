//! Algebraic laws of the bit-wise operators, stated over the
//! mathematical model of [`crate::bits`].

use crate::bits::{and_bits, min_len, not_bits, or_bits, xor_bits};
use vstd::prelude::*;

verus! {

/// Negation keeps the length and flips the bit at every position.
pub proof fn lemma_not_spec(a: Seq<bool>)
    ensures
        not_bits(a).len() == a.len(),
        forall|p: int| 0 <= p < a.len() ==> #[trigger] not_bits(a)[p] == !a[p],
{
}

/// Each binary operator reports the reconciled (minimum) length.
pub proof fn lemma_binary_len(a: Seq<bool>, b: Seq<bool>)
    ensures
        and_bits(a, b).len() == min_len(a.len(), b.len()),
        or_bits(a, b).len() == min_len(a.len(), b.len()),
        xor_bits(a, b).len() == min_len(a.len(), b.len()),
{
}

/// At every position below the reconciled length, each binary operator
/// applies its truth table to the operands' bits at that position.
pub proof fn lemma_binary_spec(a: Seq<bool>, b: Seq<bool>)
    ensures
        forall|p: int|
            0 <= p < min_len(a.len(), b.len()) ==> #[trigger] and_bits(a, b)[p] == (a[p] && b[p]),
        forall|p: int|
            0 <= p < min_len(a.len(), b.len()) ==> #[trigger] or_bits(a, b)[p] == (a[p] || b[p]),
        forall|p: int|
            0 <= p < min_len(a.len(), b.len()) ==> #[trigger] xor_bits(a, b)[p] == (a[p] != b[p]),
{
}

/// Double negation: complementing twice gives back the same bit at
/// every position.
pub proof fn lemma_not_not(a: Seq<bool>)
    ensures
        not_bits(not_bits(a)) == a,
{
    assert(not_bits(not_bits(a)) =~= a);
}

/// Conjunction is idempotent: `A AND A` is `A`.
pub proof fn lemma_and_self(a: Seq<bool>)
    ensures
        and_bits(a, a) == a,
{
    assert(and_bits(a, a) =~= a);
}

/// Disjunction is idempotent: `A OR A` is `A`.
pub proof fn lemma_or_self(a: Seq<bool>)
    ensures
        or_bits(a, a) == a,
{
    assert(or_bits(a, a) =~= a);
}

/// `A XOR A` is all-false over the length of `A`.
pub proof fn lemma_xor_self(a: Seq<bool>)
    ensures
        xor_bits(a, a) == Seq::new(a.len(), |i: int| false),
{
    assert(xor_bits(a, a) =~= Seq::new(a.len(), |i: int| false));
}

/// De Morgan: `NOT (A AND B)` is `(NOT A) OR (NOT B)`, both of the
/// reconciled length.
pub proof fn lemma_de_morgan(a: Seq<bool>, b: Seq<bool>)
    ensures
        not_bits(and_bits(a, b)) == or_bits(not_bits(a), not_bits(b)),
{
    assert(not_bits(and_bits(a, b)) =~= or_bits(not_bits(a), not_bits(b)));
}

/// Slicing commutes with negation.
pub proof fn lemma_not_slice(a: Seq<bool>, lo: int, hi: int)
    requires
        0 <= lo <= hi <= a.len(),
    ensures
        not_bits(a).subrange(lo, hi) == not_bits(a.subrange(lo, hi)),
{
    assert(not_bits(a).subrange(lo, hi) =~= not_bits(a.subrange(lo, hi)));
}

/// Slicing commutes with conjunction: slicing the combined result over a
/// range valid on both operands gives the same bits as combining the two
/// sliced operands.
pub proof fn lemma_and_slice(a: Seq<bool>, b: Seq<bool>, lo: int, hi: int)
    requires
        0 <= lo <= hi <= min_len(a.len(), b.len()),
    ensures
        and_bits(a, b).subrange(lo, hi) == and_bits(a.subrange(lo, hi), b.subrange(lo, hi)),
{
    assert(and_bits(a, b).subrange(lo, hi) =~= and_bits(a.subrange(lo, hi), b.subrange(lo, hi)));
}

/// Slicing commutes with disjunction.
pub proof fn lemma_or_slice(a: Seq<bool>, b: Seq<bool>, lo: int, hi: int)
    requires
        0 <= lo <= hi <= min_len(a.len(), b.len()),
    ensures
        or_bits(a, b).subrange(lo, hi) == or_bits(a.subrange(lo, hi), b.subrange(lo, hi)),
{
    assert(or_bits(a, b).subrange(lo, hi) =~= or_bits(a.subrange(lo, hi), b.subrange(lo, hi)));
}

/// Slicing commutes with exclusive or.
pub proof fn lemma_xor_slice(a: Seq<bool>, b: Seq<bool>, lo: int, hi: int)
    requires
        0 <= lo <= hi <= min_len(a.len(), b.len()),
    ensures
        xor_bits(a, b).subrange(lo, hi) == xor_bits(a.subrange(lo, hi), b.subrange(lo, hi)),
{
    assert(xor_bits(a, b).subrange(lo, hi) =~= xor_bits(a.subrange(lo, hi), b.subrange(lo, hi)));
}

} // verus!
