//! Small arithmetic facts behind the checked multiply-by-quantity pattern.

use vstd::prelude::*;

use vstd::arithmetic::div_mod::{lemma_fundamental_div_mod, lemma_mod_division_less_than_divisor};

verus! {

/// A factor strictly above `max / q` pushes the product past `max`.
pub proof fn lemma_mul_exceeds(p: int, q: int, max: int)
    requires
        q > 0,
        max >= 0,
        p > max / q,
    ensures
        p * q > max,
{
    lemma_fundamental_div_mod(max, q);
    lemma_mod_division_less_than_divisor(max, q);
    assert((max / q) * q == max - max % q) by (nonlinear_arith)
        requires
            max == q * (max / q) + max % q,
    ;
    assert(p * q >= (max / q + 1) * q) by (nonlinear_arith)
        requires
            p >= max / q + 1,
            q > 0,
    ;
    assert((max / q + 1) * q == (max / q) * q + q) by (nonlinear_arith);
}

/// A factor at most `max / q` keeps the product within `max`.
pub proof fn lemma_mul_fits(p: int, q: int, max: int)
    requires
        q > 0,
        max >= 0,
        0 <= p <= max / q,
    ensures
        p * q <= max,
{
    lemma_fundamental_div_mod(max, q);
    lemma_mod_division_less_than_divisor(max, q);
    assert((max / q) * q == max - max % q) by (nonlinear_arith)
        requires
            max == q * (max / q) + max % q,
    ;
    assert(p * q <= (max / q) * q) by (nonlinear_arith)
        requires
            0 <= p <= max / q,
            q > 0,
    ;
}

} // verus!
