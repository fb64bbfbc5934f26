//! Fixed-point scalars and exact linear interpolation.
//!
//! Transform components are `i64` values on a fixed-point scale chosen by
//! the embedding application.  Components are kept within `COMPONENT_BOUND`
//! so that interpolating with a `u64` fade fraction never overflows the
//! `u128` intermediate arithmetic.

use vstd::prelude::*;

verus! {

/// Largest magnitude a transform component may take.
pub const COMPONENT_BOUND: i64 = 1_000_000_000_000_000;

/// A scalar usable as an interpolation operand.
pub open spec fn scalar_in_bounds(v: int) -> bool {
    -(COMPONENT_BOUND as int) <= v <= COMPONENT_BOUND as int
}

/// Linear interpolation from `a` toward `b` by the fraction `num / den`,
/// with the scaled difference rounded toward zero.
pub open spec fn spec_lerp(a: int, b: int, num: int, den: int) -> int
    recommends
        den > 0,
        0 <= num <= den,
{
    if b >= a {
        a + ((b - a) * num) / den
    } else {
        a - ((a - b) * num) / den
    }
}

/// The interpolant never leaves the closed interval spanned by its operands.
pub proof fn lemma_lerp_in_interval(a: int, b: int, num: int, den: int)
    requires
        den > 0,
        0 <= num <= den,
    ensures
        b >= a ==> a <= spec_lerp(a, b, num, den) <= b,
        b < a ==> b <= spec_lerp(a, b, num, den) <= a,
{
    if b >= a {
        let d = b - a;
        assert(0 <= d * num) by (nonlinear_arith)
            requires
                d >= 0,
                num >= 0,
        ;
        assert(d * num <= d * den) by (nonlinear_arith)
            requires
                d >= 0,
                num <= den,
        ;
        assert(0 <= (d * num) / den) by {
            vstd::arithmetic::div_mod::lemma_div_is_ordered(0, d * num, den);
        }
        assert((d * num) / den <= d) by {
            vstd::arithmetic::div_mod::lemma_div_is_ordered(d * num, d * den, den);
            vstd::arithmetic::div_mod::lemma_div_by_multiple(d, den);
        }
    } else {
        let d = a - b;
        assert(0 <= d * num) by (nonlinear_arith)
            requires
                d >= 0,
                num >= 0,
        ;
        assert(d * num <= d * den) by (nonlinear_arith)
            requires
                d >= 0,
                num <= den,
        ;
        assert(0 <= (d * num) / den) by {
            vstd::arithmetic::div_mod::lemma_div_is_ordered(0, d * num, den);
        }
        assert((d * num) / den <= d) by {
            vstd::arithmetic::div_mod::lemma_div_is_ordered(d * num, d * den, den);
            vstd::arithmetic::div_mod::lemma_div_by_multiple(d, den);
        }
    }
}

/// At a zero fraction the interpolant is exactly the source operand.
pub proof fn lemma_lerp_at_start(a: int, b: int, den: int)
    requires
        den > 0,
    ensures
        spec_lerp(a, b, 0, den) == a,
{
    if b >= a {
        assert((b - a) * 0 == 0);
        assert(0int / den == 0) by {
            vstd::arithmetic::div_mod::lemma_div_of0(den);
        }
    } else {
        assert((a - b) * 0 == 0);
        assert(0int / den == 0) by {
            vstd::arithmetic::div_mod::lemma_div_of0(den);
        }
    }
}

/// At a full fraction the interpolant is exactly the destination operand.
pub proof fn lemma_lerp_at_end(a: int, b: int, den: int)
    requires
        den > 0,
    ensures
        spec_lerp(a, b, den, den) == b,
{
    if b >= a {
        assert(((b - a) * den) / den == b - a) by {
            vstd::arithmetic::div_mod::lemma_div_by_multiple(b - a, den);
        }
    } else {
        assert(((a - b) * den) / den == a - b) by {
            vstd::arithmetic::div_mod::lemma_div_by_multiple(a - b, den);
        }
    }
}

/// At the half fraction the interpolant is the arithmetic midpoint,
/// whenever that midpoint is an integer.
pub proof fn lemma_lerp_midpoint(a: int, b: int)
    requires
        (a + b) % 2 == 0,
    ensures
        spec_lerp(a, b, 1, 2) == (a + b) / 2,
{
    if b >= a {
        assert((b - a) * 1 == b - a);
        assert(a + (b - a) / 2 == (a + b) / 2);
    } else {
        assert((a - b) * 1 == a - b);
        assert(a - (a - b) / 2 == (a + b) / 2);
    }
}

/// Interpolate `a` toward `b` by `num / den` with exact integer arithmetic.
pub fn lerp_scalar(a: i64, b: i64, num: u64, den: u64) -> (r: i64)
    requires
        den > 0,
        num <= den,
        scalar_in_bounds(a as int),
        scalar_in_bounds(b as int),
    ensures
        r == spec_lerp(a as int, b as int, num as int, den as int),
        scalar_in_bounds(r as int),
{
    proof {
        lemma_lerp_in_interval(a as int, b as int, num as int, den as int);
    }
    if b >= a {
        let diff: u128 = (b - a) as u128;
        proof {
            assert(diff * (num as u128) <= 0x8_0000_0000_0000_0000_0000_0000_0000_u128) by (nonlinear_arith)
                requires
                    diff <= 2 * (COMPONENT_BOUND as u128),
                    (num as u128) < 0x1_0000_0000_0000_0000_u128,
            ;
        }
        let scaled: u128 = diff * (num as u128) / (den as u128);
        a + (scaled as i64)
    } else {
        let diff: u128 = (a - b) as u128;
        proof {
            assert(diff * (num as u128) <= 0x8_0000_0000_0000_0000_0000_0000_0000_u128) by (nonlinear_arith)
                requires
                    diff <= 2 * (COMPONENT_BOUND as u128),
                    (num as u128) < 0x1_0000_0000_0000_0000_u128,
            ;
        }
        let scaled: u128 = diff * (num as u128) / (den as u128);
        a - (scaled as i64)
    }
}

} // verus!
