use vstd::arithmetic::div_mod::{
    lemma_fundamental_div_mod, lemma_fundamental_div_mod_converse_div, lemma_multiply_divide_le,
};
use vstd::prelude::*;

verus! {

/// Division of non-negative integers rounded towards positive infinity.
pub open spec fn ceil_div(a: int, b: int) -> int {
    (a + b - 1) / b
}

/// The two shapes of a ceiling quotient: one above the floor quotient
/// exactly when the division has a remainder, and the least integer whose
/// product with the divisor reaches the dividend.
pub proof fn lemma_ceil_div(a: int, b: int)
    requires
        a >= 0,
        b > 0,
    ensures
        ceil_div(a, b) == if a % b == 0 { a / b } else { a / b + 1 },
        ceil_div(a, b) * b >= a,
        ceil_div(a, b) >= a / b >= 0,
        a == 0 ==> ceil_div(a, b) == 0,
{
    let q = a / b;
    let r = a % b;
    lemma_fundamental_div_mod(a, b);
    if r == 0 {
        assert(a + b - 1 == q * b + (b - 1));
        lemma_fundamental_div_mod_converse_div(a + b - 1, b, q, b - 1);
        assert(ceil_div(a, b) * b == q * b) by (nonlinear_arith)
            requires ceil_div(a, b) == q,
        ;
    } else {
        assert(a + b - 1 == (q + 1) * b + (r - 1)) by (nonlinear_arith)
            requires a == q * b + r,
        ;
        lemma_fundamental_div_mod_converse_div(a + b - 1, b, q + 1, r - 1);
        assert(ceil_div(a, b) * b == q * b + b) by (nonlinear_arith)
            requires ceil_div(a, b) == q + 1,
        ;
    }
    lemma_div_pos(a, b);
}

/// A quotient of non-negative numerator and positive denominator is
/// non-negative and at most the numerator.
pub proof fn lemma_div_pos(a: int, b: int)
    requires
        a >= 0,
        b > 0,
    ensures
        0 <= a / b <= a,
{
    lemma_fundamental_div_mod(a, b);
    assert(0 <= a / b <= a) by (nonlinear_arith)
        requires a >= 0, b > 0, a == b * (a / b) + a % b, 0 <= a % b < b,
    ;
}

/// A ceiling quotient is bounded by any integer whose product with the
/// divisor reaches the dividend.
pub proof fn lemma_ceil_div_le(a: int, b: int, c: int)
    requires
        a >= 0,
        b > 0,
        c >= 0,
        a <= b * c,
    ensures
        ceil_div(a, b) <= c,
{
    lemma_ceil_div(a, b);
    if a % b == 0 {
        lemma_multiply_divide_le(a, b, c);
    } else {
        assert(a != b * c) by {
            if a == b * c {
                vstd::arithmetic::div_mod::lemma_mod_multiples_basic(c, b);
                assert((c * b) % b == 0);
                assert(b * c == c * b) by (nonlinear_arith);
            }
        }
        vstd::arithmetic::div_mod::lemma_multiply_divide_lt(a, b, c);
    }
}

/// `r` is the integer square root of `x`: the greatest integer whose
/// square does not exceed `x`.
pub open spec fn is_integer_sqrt(x: int, r: int) -> bool {
    r >= 0 && r * r <= x && x < (r + 1) * (r + 1)
}

/// The integer square root of a non-negative number, as a value.
pub open spec fn spec_integer_sqrt(x: int) -> int {
    choose|r: int| is_integer_sqrt(x, r)
}

/// At most one integer satisfies `is_integer_sqrt` for a given radicand.
pub proof fn lemma_integer_sqrt_unique(x: int, a: int, b: int)
    by (nonlinear_arith)
    requires
        is_integer_sqrt(x, a),
        is_integer_sqrt(x, b),
    ensures
        a == b,
{
}

/// A witness pins down `spec_integer_sqrt`.
pub proof fn lemma_integer_sqrt_is(x: int, r: int)
    requires
        is_integer_sqrt(x, r),
    ensures
        spec_integer_sqrt(x) == r,
{
    let c = choose|s: int| is_integer_sqrt(x, s);
    lemma_integer_sqrt_unique(x, c, r);
}

/// Floor of the square root, by binary search on the answer.
///
/// The result of any `u128` radicand fits in a `u64`, since squaring
/// `2^64` already exceeds every `u128` value.
pub fn integer_sqrt(x: u128) -> (r: u64)
    ensures
        is_integer_sqrt(x as int, r as int),
        r == spec_integer_sqrt(x as int),
{
    let mut lo: u128 = 0;
    let mut hi: u128 = 0x1_0000_0000_0000_0000;
    assert((hi as int) * (hi as int) > u128::MAX);
    while lo + 1 < hi
        invariant
            0 <= lo < hi <= 0x1_0000_0000_0000_0000u128,
            (lo as int) * (lo as int) <= x as int,
            (x as int) < (hi as int) * (hi as int),
        decreases hi - lo,
    {
        let mid = lo + (hi - lo) / 2;
        assert(lo < mid < hi);
        assert(mid * mid <= u128::MAX) by (nonlinear_arith)
            requires mid < 0x1_0000_0000_0000_0000u128,
        ;
        if mid * mid <= x {
            lo = mid;
        } else {
            hi = mid;
        }
    }
    assert(is_integer_sqrt(x as int, lo as int));
    proof {
        lemma_integer_sqrt_is(x as int, lo as int);
    }
    lo as u64
}

/// Multiplying two values bounded by `u64::MAX` cannot overflow a `u128`.
pub proof fn lemma_u64_mul_fits_u128(a: int, b: int)
    by (nonlinear_arith)
    requires
        0 <= a <= u64::MAX,
        0 <= b <= u64::MAX,
    ensures
        0 <= a * b <= u128::MAX,
{
}

} // verus!
