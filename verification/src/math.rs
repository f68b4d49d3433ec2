//! Integer arithmetic helpers for the simulation's vector math: truncating
//! division, integer square roots, and the reflection law used by the
//! deflection mechanic.
use vstd::prelude::*;

verus! {

/// Division rounding toward zero, the rounding used throughout the
/// simulation's fixed-point vector math.
pub open spec fn sdiv(a: int, b: int) -> int {
    if a >= 0 {
        a / b
    } else {
        -((-a) / b)
    }
}

/// Divide `a` by a positive divisor `b`, rounding toward zero.
pub fn div_trunc(a: i64, b: i64) -> (r: i64)
    requires
        b >= 1,
        a > i64::MIN,
    ensures
        r == sdiv(a as int, b as int),
{
    if a >= 0 {
        let q: u64 = (a as u64) / (b as u64);
        q as i64
    } else {
        let q: u64 = ((-a) as u64) / (b as u64);
        -(q as i64)
    }
}

/// The floor of the square root of `n` (meaningful for `n >= 0`).
pub open spec fn sqrt_floor(n: int) -> int {
    choose|r: int| r >= 0 && #[trigger] (r * r) <= n < (r + 1) * (r + 1)
}

/// The square-root floor is unique: any two nonnegative roots that bracket
/// `n` the same way are equal.
pub proof fn lemma_sqrt_floor_unique(n: int, r: int)
    requires
        r >= 0,
        r * r <= n < (r + 1) * (r + 1),
    ensures
        sqrt_floor(n) == r,
{
    assert(exists|q: int| q >= 0 && #[trigger] (q * q) <= n < (q + 1) * (q + 1)) by {
        assert(r >= 0 && r * r <= n < (r + 1) * (r + 1));
    }
    let q = sqrt_floor(n);
    assert(q >= 0 && q * q <= n < (q + 1) * (q + 1));
    assert(q == r) by (nonlinear_arith)
        requires
            q >= 0,
            r >= 0,
            q * q <= n < (q + 1) * (q + 1),
            r * r <= n < (r + 1) * (r + 1),
    ;
}

/// Floor of the square root, computed by binary search.
pub fn isqrt_u64(n: u64) -> (r: u64)
    ensures
        r * r <= n < (r + 1) * (r + 1),
        r == sqrt_floor(n as int),
{
    let mut lo: u64 = 0;
    let mut hi: u64 = 0x1_0000_0000;
    assert((hi as int) * (hi as int) > n as int) by (nonlinear_arith)
        requires
            hi == 0x1_0000_0000u64,
            n <= u64::MAX,
    ;
    while lo + 1 < hi
        invariant
            0 <= lo < hi <= 0x1_0000_0000,
            (lo as int) * (lo as int) <= n as int,
            (hi as int) * (hi as int) > n as int,
        decreases hi - lo,
    {
        let mid: u64 = lo + (hi - lo) / 2;
        assert((mid as int) * (mid as int) <= 0x1_0000_0000_0000_0000) by (nonlinear_arith)
            requires
                0 <= mid <= 0x1_0000_0000u64,
        ;
        let sq: u128 = (mid as u128) * (mid as u128);
        if sq <= n as u128 {
            lo = mid;
        } else {
            hi = mid;
        }
    }
    proof {
        lemma_sqrt_floor_unique(n as int, lo as int);
    }
    lo
}

/// Truncating division by a positive divisor never grows a value's
/// magnitude, and keeps its sign.
pub proof fn lemma_sdiv_mag(a: int, b: int)
    requires
        b >= 1,
    ensures
        a >= 0 ==> 0 <= sdiv(a, b) <= a,
        a < 0 ==> a <= sdiv(a, b) <= 0,
{
    if a >= 0 {
        vstd::arithmetic::div_mod::lemma_div_pos_is_pos(a, b);
        vstd::arithmetic::div_mod::lemma_div_nonincreasing(a, b);
    } else {
        vstd::arithmetic::div_mod::lemma_div_pos_is_pos(-a, b);
        vstd::arithmetic::div_mod::lemma_div_nonincreasing(-a, b);
    }
}

/// Reflecting a velocity `v` across a normal `n` reverses the component of
/// `v` along `n` exactly: working at scale `s` (where `n` has squared length
/// `s * s`, so `s == 1` is the unit-normal case), the reflected vector's dot
/// product with `n` is the negation of the original's, scaled by `s * s`.
pub proof fn lemma_reflection_reverses_normal_component(
    vx: int,
    vy: int,
    nx: int,
    ny: int,
    s: int,
)
    requires
        nx * nx + ny * ny == s * s,
    ensures
        (vx * (s * s) - 2 * (vx * nx + vy * ny) * nx) * nx + (vy * (s * s) - 2 * (vx * nx + vy
            * ny) * ny) * ny == -(vx * nx + vy * ny) * (s * s),
{
    assert((vx * (s * s) - 2 * (vx * nx + vy * ny) * nx) * nx + (vy * (s * s) - 2 * (vx * nx + vy
        * ny) * ny) * ny == -(vx * nx + vy * ny) * (s * s)) by (nonlinear_arith)
        requires
            nx * nx + ny * ny == s * s,
    ;
}

} // verus!

verus! {

/// Damping by the ratio twenty twenty-ninths (division by 1.45) never grows
/// a value's magnitude.
pub proof fn lemma_damp_bound(v: int)
    ensures
        v >= 0 ==> 0 <= sdiv(20 * v, 29) <= v,
        v < 0 ==> v <= sdiv(20 * v, 29) <= 0,
{
    if v >= 0 {
        vstd::arithmetic::div_mod::lemma_div_pos_is_pos(20 * v, 29);
        vstd::arithmetic::div_mod::lemma_multiply_divide_le(20 * v, 29, v);
    } else {
        vstd::arithmetic::div_mod::lemma_div_pos_is_pos(20 * (-v), 29);
        vstd::arithmetic::div_mod::lemma_multiply_divide_le(20 * (-v), 29, -v);
    }
}

} // verus!
