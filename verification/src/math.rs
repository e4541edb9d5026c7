//! Integer arithmetic for proportional shares.

use vstd::prelude::*;

verus! {

/// Splitting the dividend into a multiple of the divisor and a rest does not
/// change the quotient of the product.
pub proof fn lemma_prorate_split(amount: int, part: int, whole: int)
    requires
        0 <= amount,
        0 <= part,
        0 < whole,
    ensures
        (amount * part) / whole == (amount / whole) * part + ((amount % whole) * part) / whole,
{
    let q = amount / whole;
    let r = amount % whole;
    assert(amount == q * whole + r) by (nonlinear_arith)
        requires
            q == amount / whole,
            r == amount % whole,
            0 < whole,
    ;
    assert(amount * part == (q * part) * whole + r * part) by (nonlinear_arith)
        requires
            amount == q * whole + r,
    ;
    assert(((q * part) * whole + r * part) / whole == q * part + (r * part) / whole)
        by (nonlinear_arith)
        requires
            0 < whole,
    ;
}

/// A share never exceeds the amount it is taken from.
pub proof fn lemma_prorate_bounds(amount: int, part: int, whole: int)
    by (nonlinear_arith)
    requires
        0 <= amount,
        0 <= part <= whole,
        0 < whole,
    ensures
        0 <= (amount * part) / whole <= amount,
{
    assert(amount * part <= amount * whole);
    assert((amount * whole) / whole == amount);
}

/// The share `amount * part / whole`, rounded down, for a part that is at
/// most the whole. The product may be wider than 128 bits; the result is
/// exact all the same.
pub fn prorate(amount: u128, part: u64, whole: u64) -> (share: u128)
    requires
        whole > 0,
        part <= whole,
    ensures
        share == (amount * part) / (whole as int),
        share <= amount,
{
    let quotient: u128 = amount / (whole as u128);
    let rest: u128 = amount % (whole as u128);
    proof {
        lemma_prorate_split(amount as int, part as int, whole as int);
        lemma_prorate_bounds(amount as int, part as int, whole as int);
        assert(0 <= quotient * part <= amount) by (nonlinear_arith)
            requires
                quotient == amount / (whole as u128),
                0 <= part <= whole,
                0 < whole,
        ;
        assert(0 <= rest * part <= 0xffff_ffff_ffff_ffff * 0xffff_ffff_ffff_ffff)
            by (nonlinear_arith)
            requires
                0 <= rest < whole,
                0 <= part <= whole,
                whole <= 0xffff_ffff_ffff_ffff,
        ;
        assert(0 <= (rest * part) / (whole as int)) by (nonlinear_arith)
            requires
                0 <= rest * part,
                0 < whole,
        ;
    }
    quotient * (part as u128) + (rest * (part as u128)) / (whole as u128)
}

} // verus!
