use vstd::prelude::*;
use vstd::arithmetic::div_mod::{
    lemma_div_by_multiple,
    lemma_div_is_ordered,
    lemma_div_is_ordered_by_denominator,
    lemma_fundamental_div_mod,
    lemma_mod_bound,
};

verus! {

/// The product of two 64-bit amounts fits in 128 bits.
pub proof fn lemma_mul_fits_u128(x: u64, y: u64)
    ensures
        0 <= x * y <= u64::MAX * u64::MAX,
        x * y <= u128::MAX,
{
    assert(0 <= x * y <= u64::MAX * u64::MAX) by (nonlinear_arith)
        requires
            x <= u64::MAX,
            y <= u64::MAX,
    ;
}

/// Scaling `y` by `x / d` with `x <= d` never exceeds `y`.
pub proof fn lemma_scale_down_le(x: int, y: int, d: int)
    requires
        0 <= x <= d,
        0 <= y,
        0 < d,
    ensures
        0 <= x * y / d <= y,
{
    assert(0 <= x * y <= d * y) by (nonlinear_arith)
        requires
            0 <= x <= d,
            0 <= y,
    ;
    lemma_div_is_ordered(x * y, d * y, d);
    lemma_div_is_ordered(0, x * y, d);
    assert(d * y == y * d) by (nonlinear_arith);
    lemma_div_by_multiple(y, d);
}

/// Scaling a positive `y` by `x / d` with `x < d` gives strictly less than `y`.
pub proof fn lemma_scale_down_lt(x: int, y: int, d: int)
    requires
        0 <= x < d,
        0 < y,
    ensures
        x * y / d < y,
{
    lemma_fundamental_div_mod(x * y, d);
    lemma_mod_bound(x * y, d);
    let q = x * y / d;
    if q >= y {
        assert(d * q >= d * y) by (nonlinear_arith)
            requires
                q >= y,
                d > 0,
        ;
        assert(x * y < d * y) by (nonlinear_arith)
            requires
                0 <= x < d,
                0 < y,
        ;
    }
}

/// Integer division is monotone in the dividend and antitone in the divisor.
pub proof fn lemma_div_monotone(x1: int, x2: int, d1: int, d2: int)
    requires
        0 <= x1 <= x2,
        0 < d2 <= d1,
    ensures
        x1 / d1 <= x2 / d2,
{
    lemma_div_is_ordered_by_denominator(x1, d2, d1);
    lemma_div_is_ordered(x1, x2, d2);
}

/// `x * n / d` grows by at most `δ` when `x` grows by `δ`, when `n <= d`.
pub proof fn lemma_scaled_growth(x: int, delta: int, n: int, d: int)
    requires
        0 <= x,
        0 <= delta,
        0 <= n <= d,
        0 < d,
    ensures
        (x + delta) * n / d <= x * n / d + delta,
{
    lemma_fundamental_div_mod(x * n, d);
    lemma_mod_bound(x * n, d);
    lemma_fundamental_div_mod((x + delta) * n, d);
    lemma_mod_bound((x + delta) * n, d);
    let q1 = x * n / d;
    let q2 = (x + delta) * n / d;
    assert((x + delta) * n == x * n + delta * n) by (nonlinear_arith);
    assert(delta * n <= delta * d) by (nonlinear_arith)
        requires
            0 <= delta,
            n <= d,
    ;
    if q2 > q1 + delta {
        assert(d * q2 >= d * (q1 + delta + 1)) by (nonlinear_arith)
            requires
                q2 >= q1 + delta + 1,
                d > 0,
        ;
        assert(d * (q1 + delta + 1) == d * q1 + d * delta + d) by (nonlinear_arith);
        assert(d * delta == delta * d) by (nonlinear_arith);
    }
}

/// Truncating a 128-bit value to 64 bits never makes it larger.
pub proof fn lemma_truncate_le(x: u128)
    ensures
        (x as u64) as int <= x as int,
        x <= u64::MAX ==> (x as u64) as int == x as int,
{
    assert((x as u64) as u128 <= x) by (bit_vector);
    assert(x <= 0xffff_ffff_ffff_ffffu128 ==> (x as u64) as u128 == x) by (bit_vector);
}

} // verus!
