//! Facts of integer arithmetic that the share accounting rests on.
use vstd::arithmetic::div_mod::{
    lemma_div_by_multiple, lemma_div_is_ordered, lemma_div_pos_is_pos, lemma_fundamental_div_mod,
    lemma_mod_bound,
};
use vstd::arithmetic::mul::{lemma_mul_inequality, lemma_mul_is_commutative, lemma_mul_nonnegative};
use vstd::prelude::*;

verus! {

/// Scaling `b` by the fraction `a / c`, with `a <= c`, rounds down to at most `b`.
pub proof fn lemma_scaled_le(a: int, b: int, c: int)
    requires
        0 <= a <= c,
        0 <= b,
        0 < c,
    ensures
        0 <= a * b / c <= b,
{
    lemma_mul_inequality(a, c, b);
    lemma_mul_nonnegative(a, b);
    lemma_div_is_ordered(a * b, c * b, c);
    lemma_mul_is_commutative(c, b);
    lemma_div_by_multiple(b, c);
    lemma_div_pos_is_pos(a * b, c);
}

/// Rounding a quotient down never gives back more than was divided.
pub proof fn lemma_floor_mul_le(x: int, d: int)
    requires
        0 <= x,
        0 < d,
    ensures
        d * (x / d) <= x,
        0 <= x / d,
{
    lemma_fundamental_div_mod(x, d);
    lemma_mod_bound(x, d);
    lemma_div_pos_is_pos(x, d);
}

} // verus!
