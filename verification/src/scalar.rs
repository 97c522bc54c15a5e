//! Exact integer arithmetic, and the one place where it meets the 64-bit range.

use vstd::prelude::*;

verus! {

/// The value of the 64-bit range that lies nearest to `v`.
pub open spec fn saturate(v: int) -> int {
    if v < i64::MIN {
        i64::MIN as int
    } else if v > i64::MAX {
        i64::MAX as int
    } else {
        v
    }
}

/// The quotient of `n` by `d`, rounded towards zero.
pub open spec fn quotient_towards_zero(n: int, d: int) -> int
    recommends
        d > 0,
{
    if n >= 0 {
        n / d
    } else {
        -((-n) / d)
    }
}

/// Brings an exact intermediate value into the 64-bit range.
pub fn narrow(v: i128) -> (r: i64)
    ensures
        r == saturate(v as int),
{
    if v < i64::MIN as i128 {
        i64::MIN
    } else if v > i64::MAX as i128 {
        i64::MAX
    } else {
        v as i64
    }
}

/// The sum of two stored values, saturated.
pub fn saturating_sum(a: i64, b: i64) -> (r: i64)
    ensures
        r == saturate(a + b),
{
    narrow(a as i128 + b as i128)
}

/// The product of two stored values, saturated.
pub fn saturating_product(a: i64, b: i64) -> (r: i64)
    ensures
        r == saturate(a * b),
        b == 1 ==> r == a,
{
    assert(-0x4000_0000_0000_0000_0000_0000_0000_0000 <= a * b
        <= 0x4000_0000_0000_0000_0000_0000_0000_0000) by (nonlinear_arith)
        requires
            -0x8000_0000_0000_0000 <= a <= 0x8000_0000_0000_0000,
            -0x8000_0000_0000_0000 <= b <= 0x8000_0000_0000_0000,
    ;
    narrow((a as i128) * (b as i128))
}

/// The opposite of a stored value, saturated: only the least value of the
/// range has no exact opposite.
pub fn negated(v: i64) -> (r: i64)
    ensures
        r == saturate(-v),
        v > i64::MIN ==> r == -v,
{
    narrow(-(v as i128))
}

/// Division that rounds towards zero, for a positive divisor. The quotient
/// lies between 0 and the dividend.
pub fn divide_towards_zero(n: i128, d: i128) -> (q: i128)
    requires
        d > 0,
    ensures
        q == quotient_towards_zero(n as int, d as int),
        n >= 0 ==> 0 <= q <= n,
        n <= 0 ==> n <= q <= 0,
{
    proof {
        lemma_quotient_towards_zero_bounds(n as int, d as int);
    }
    n / d
}

/// A quotient that is rounded towards zero lies between 0 and the dividend.
pub proof fn lemma_quotient_towards_zero_bounds(n: int, d: int)
    requires
        d > 0,
    ensures
        n >= 0 ==> 0 <= quotient_towards_zero(n, d) <= n,
        n <= 0 ==> n <= quotient_towards_zero(n, d) <= 0,
{
    if n >= 0 {
        assert(0 <= n / d <= n) by (nonlinear_arith)
            requires
                n >= 0,
                d > 0,
        ;
    } else {
        let m = -n;
        assert(0 <= m / d <= m) by (nonlinear_arith)
            requires
                m >= 0,
                d > 0,
        ;
    }
}

/// `count * pitch + origin`, saturated: the place of the `count`-th of equally
/// spaced things.
pub fn spaced(count: usize, pitch: i128, origin: i64) -> (r: i64)
    ensures
        r == saturate(count * pitch + origin),
{
    match (count as i128).checked_mul(pitch) {
        Some(span) => match span.checked_add(origin as i128) {
            Some(place) => narrow(place),
            None => if span > 0 {
                i64::MAX
            } else {
                i64::MIN
            },
        },
        None => {
            if pitch > 0 {
                assert(count * pitch >= 0) by (nonlinear_arith)
                    requires
                        count >= 0,
                        pitch > 0,
                ;
                i64::MAX
            } else {
                assert(count * pitch <= 0) by (nonlinear_arith)
                    requires
                        count >= 0,
                        pitch <= 0,
                ;
                i64::MIN
            }
        },
    }
}

} // verus!
