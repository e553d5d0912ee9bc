//! Exact integer arithmetic shared by the unit algebra and the geometry
//! resolver: rounding quotients and clamping into machine ranges.
use vstd::prelude::*;

verus! {

/// Largest magnitude that [`round_div`] accepts for either operand.
pub const ROUND_LIMIT: i128 = 0x1_0000_0000_0000_0000_0000_0000i128;

/// The integer nearest to `n / d` for a positive `d`, ties going away from zero.
pub open spec fn round_quotient_pos(n: int, d: int) -> int {
    if n >= 0 {
        (2 * n + d) / (2 * d)
    } else {
        -((2 * (-n) + d) / (2 * d))
    }
}

/// The integer nearest to `n / d`, ties going away from zero; 0 when `d` is 0.
pub open spec fn round_quotient(n: int, d: int) -> int {
    if d == 0 {
        0
    } else if d > 0 {
        round_quotient_pos(n, d)
    } else {
        round_quotient_pos(-n, -d)
    }
}

/// `x` moved to the nearest value of the closed range from `lo` to `hi`.
pub open spec fn clamp(x: int, lo: int, hi: int) -> int {
    if x < lo {
        lo
    } else if x > hi {
        hi
    } else {
        x
    }
}

/// `x / 2` rounded toward zero.
pub open spec fn half_toward_zero(x: int) -> int {
    if x >= 0 {
        x / 2
    } else {
        -((-x) / 2)
    }
}

/// A rounded quotient is no larger in magnitude than what was divided.
pub proof fn lemma_round_quotient_bound(n: int, d: int)
    ensures
        n >= 0 ==> -n <= round_quotient(n, d) <= n,
        n <= 0 ==> n <= round_quotient(n, d) <= -n,
{
    let m = if n >= 0 { n } else { -n };
    let e = if d >= 0 { d } else { -d };
    if e > 0 {
        let q = (2 * m + e) / (2 * e);
        assert(0 <= q <= m) by (nonlinear_arith)
            requires
                q == (2 * m + e) / (2 * e),
                e > 0,
                m >= 0,
        ;
    }
}

/// A rounded quotient is within half a unit of the exact one: twice its
/// distance from `n / d`, scaled by `d`, is at most `d`.
pub proof fn lemma_round_quotient_error(n: int, d: int)
    requires
        d > 0,
    ensures
        -d <= 2 * (d * round_quotient(n, d)) - 2 * n <= d,
{
    let m = if n >= 0 { n } else { -n };
    let q = (2 * m + d) / (2 * d);
    assert(2 * m - d < 2 * (d * q) <= 2 * m + d) by (nonlinear_arith)
        requires
            q == (2 * m + d) / (2 * d),
            d > 0,
    ;
    if n < 0 {
        assert(d * (-q) == -(d * q)) by (nonlinear_arith);
    }
}

/// Rounds `n / d` to the nearest integer, ties away from zero.
pub fn round_div(n: i128, d: i128) -> (q: i128)
    requires
        -ROUND_LIMIT <= n <= ROUND_LIMIT,
        -ROUND_LIMIT <= d <= ROUND_LIMIT,
    ensures
        q == round_quotient(n as int, d as int),
{
    if d == 0 {
        return 0;
    }
    let (a, b): (i128, i128) = if d > 0 {
        (n, d)
    } else {
        (-n, -d)
    };
    if a >= 0 {
        let q: i128 = (2 * a + b) / (2 * b);
        q
    } else {
        let m: i128 = -a;
        let q: i128 = (2 * m + b) / (2 * b);
        assert(0 <= q <= 2 * m + b) by (nonlinear_arith)
            requires
                q == (2 * m + b) / (2 * b),
                b > 0,
                m >= 0,
        ;
        -q
    }
}

/// Largest magnitude of a product that [`wide_product`] returns.
pub const PRODUCT_LIMIT: i128 = 0x4000_0000_0000_0000_0000_0000i128;

/// The product of `a` and `b`, which always fits.
pub fn wide_product(a: i64, b: i32) -> (p: i128)
    ensures
        p == a as int * b as int,
        -PRODUCT_LIMIT <= p <= PRODUCT_LIMIT,
{
    assert(-0x4000_0000_0000_0000_0000_0000 <= a as int * b as int
        <= 0x4000_0000_0000_0000_0000_0000) by (nonlinear_arith)
        requires
            -0x8000_0000_0000_0000 <= a as int <= 0x8000_0000_0000_0000,
            -0x8000_0000 <= b as int <= 0x8000_0000,
    ;
    a as i128 * b as i128
}

/// Moves `x` into the range of `i32`.
pub fn clamp_i32(x: i128) -> (r: i32)
    ensures
        r == clamp(x as int, i32::MIN as int, i32::MAX as int),
{
    if x < -2147483648 {
        i32::MIN
    } else if x > 2147483647 {
        i32::MAX
    } else {
        x as i32
    }
}

/// Moves `x` into the range from 0 to the largest `i32`.
pub fn clamp_nonneg_i32(x: i128) -> (r: i32)
    ensures
        r == clamp(x as int, 0, i32::MAX as int),
{
    if x < 0 {
        0
    } else if x > 2147483647 {
        i32::MAX
    } else {
        x as i32
    }
}

/// Moves `x` into the range of `u32`.
pub fn clamp_u32(x: i128) -> (r: u32)
    ensures
        r == clamp(x as int, 0, u32::MAX as int),
{
    if x < 0 {
        0
    } else if x > 4294967295 {
        u32::MAX
    } else {
        x as u32
    }
}

/// Moves `x` into the range of `i64`.
pub fn clamp_i64(x: i128) -> (r: i64)
    ensures
        r == clamp(x as int, i64::MIN as int, i64::MAX as int),
{
    if x < -9223372036854775808 {
        i64::MIN
    } else if x > 9223372036854775807 {
        i64::MAX
    } else {
        x as i64
    }
}

} // verus!
