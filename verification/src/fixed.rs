//! Fixed-point arithmetic primitives shared by the whole library:
//! the global scale, truncated division, magnitude lemmas, and an
//! exact integer square root.

use vstd::prelude::*;
use vstd::arithmetic::div_mod::{
    lemma_div_is_ordered, lemma_div_is_ordered_by_denominator, lemma_div_pos_is_pos,
    lemma_fundamental_div_mod_converse,
};

verus! {

/// Number of fixed-point units in the real value 1.0.  Every `i64`
/// quantity in this library stores its real value multiplied by
/// `SCALE`, truncated toward zero.
pub const SCALE: i64 = 1_000_000;

/// Largest magnitude a coordinate (position, direction, texture
/// coordinate, color channel) may have: 1000.0 in real units.  Under
/// this bound every intermediate value of the geometry provably fits
/// the machine integers it is computed in.
pub const COORD_LIMIT: i64 = 1_000_000_000;

/// Magnitude of an integer.
pub open spec fn iabs(v: int) -> int {
    if v < 0 {
        -v
    } else {
        v
    }
}

/// Whether a fixed-point value lies within the coordinate range of the
/// library.
pub open spec fn in_range(v: int) -> bool {
    -COORD_LIMIT <= v <= COORD_LIMIT
}

/// Whether a mathematical integer is representable as an `i64`.
pub open spec fn fits_i64(v: int) -> bool {
    i64::MIN <= v <= i64::MAX
}

/// Division truncated toward zero, the rounding Rust's `/` performs on
/// machine integers.  Defined as 0 for a zero divisor; every use in
/// this library guards the divisor first.
pub open spec fn tdiv(a: int, b: int) -> int {
    if b == 0 {
        0
    } else if a == 0 {
        0
    } else if a > 0 && b > 0 {
        a / b
    } else if a < 0 && b < 0 {
        (-a) / (-b)
    } else if a < 0 {
        -((-a) / b)
    } else {
        -(a / (-b))
    }
}

/// Truncated division never grows the magnitude of its dividend, it
/// keeps the dividend's sign, and dividing by a larger positive
/// divisor cannot enlarge the quotient.
pub proof fn lemma_tdiv_mag(a: int, b: int, bound: int)
    requires
        b >= 1,
        iabs(a) <= bound,
    ensures
        iabs(tdiv(a, b)) <= bound / b,
        bound / b <= bound,
        iabs(tdiv(a, b)) <= bound,
        a >= 0 ==> tdiv(a, b) >= 0,
        a <= 0 ==> tdiv(a, b) <= 0,
{
    lemma_div_pos_is_pos(bound, b);
    lemma_div_is_ordered_by_denominator(bound, 1, b);
    if a >= 0 {
        lemma_div_pos_is_pos(a, b);
        lemma_div_is_ordered(a, bound, b);
    } else {
        lemma_div_pos_is_pos(-a, b);
        lemma_div_is_ordered(-a, bound, b);
    }
}

/// A dividend no larger than `c` times the divisor yields a quotient
/// no larger than `c`.
pub proof fn lemma_tdiv_mul_bound(a: int, b: int, c: int)
    requires
        b >= 1,
        0 <= c,
        iabs(a) <= c * b,
    ensures
        iabs(tdiv(a, b)) <= c,
{
    lemma_fundamental_div_mod_converse(c * b, b, c, 0);
    lemma_tdiv_mag(a, b, c * b);
}

/// Bound on a product from bounds on its factors.
pub proof fn lemma_mul_mag(a: int, b: int, aa: int, bb: int)
    requires
        -aa <= a <= aa,
        -bb <= b <= bb,
    ensures
        -(aa * bb) <= a * b <= aa * bb,
{
    assert(-(aa * bb) <= a * b <= aa * bb) by (nonlinear_arith)
        requires
            -aa <= a <= aa,
            -bb <= b <= bb,
    ;
}

/// Exact truncated division on machine integers.
pub fn div_trunc(a: i128, b: i128) -> (r: i128)
    requires
        b != 0,
        a != i128::MIN,
    ensures
        r as int == tdiv(a as int, b as int),
{
    proof {
        if b >= 1 {
            lemma_tdiv_mag(a as int, b as int, iabs(a as int));
        } else {
            lemma_tdiv_mag(-(a as int), -(b as int), iabs(a as int));
            assert(tdiv(a as int, b as int) == tdiv(-(a as int), -(b as int)));
        }
    }
    let q = a.checked_div(b);
    q.unwrap()
}

/// `r` is the floor of the square root of `n`.
pub open spec fn is_sqrt_floor(n: int, r: int) -> bool {
    0 <= r && r * r <= n && n < (r + 1) * (r + 1)
}

/// Floor of the square root of a non-negative integer.
pub open spec fn sqrt_floor(n: int) -> int {
    choose|r: int| is_sqrt_floor(n, r)
}

/// Every non-negative integer has a floor square root.
pub proof fn lemma_sqrt_floor_exists(n: int)
    requires
        0 <= n,
    ensures
        is_sqrt_floor(n, sqrt_floor(n)),
    decreases n,
{
    if n == 0 {
        assert(is_sqrt_floor(0, 0));
    } else {
        lemma_sqrt_floor_exists(n - 1);
        let r = sqrt_floor(n - 1);
        if (r + 1) * (r + 1) <= n {
            let s = r + 1;
            assert(n < (s + 1) * (s + 1)) by (nonlinear_arith)
                requires
                    n - 1 < s * s,
                    s >= 0,
            ;
            assert(is_sqrt_floor(n, s));
        } else {
            assert(is_sqrt_floor(n, r));
        }
    }
    assert(exists|w: int| is_sqrt_floor(n, w));
}

/// The floor square root is unique.
pub proof fn lemma_sqrt_floor_is(n: int, r: int)
    requires
        0 <= n,
        is_sqrt_floor(n, r),
    ensures
        sqrt_floor(n) == r,
{
    lemma_sqrt_floor_exists(n);
    let s = sqrt_floor(n);
    if s < r {
        assert((s + 1) * (s + 1) <= r * r) by (nonlinear_arith)
            requires
                0 <= s < r,
        ;
        assert(false);
    }
    if r < s {
        assert((r + 1) * (r + 1) <= s * s) by (nonlinear_arith)
            requires
                0 <= r < s,
        ;
        assert(false);
    }
}

/// No component of a sum of squares can exceed the root of the sum.
pub proof fn lemma_sqrt_floor_bounds_component(n: int, r: int, x: int)
    requires
        is_sqrt_floor(n, r),
        x * x <= n,
    ensures
        iabs(x) <= r,
{
    if iabs(x) > r {
        assert((r + 1) * (r + 1) <= x * x) by (nonlinear_arith)
            requires
                0 <= r,
                r + 1 <= iabs(x),
                iabs(x) == if x < 0 { -x } else { x },
        ;
        assert(false);
    }
}

/// Floor of the square root, by binary search on the 64-bit range.
pub fn isqrt(n: u128) -> (r: u64)
    ensures
        r as int == sqrt_floor(n as int),
        is_sqrt_floor(n as int, r as int),
{
    let mut lo: u128 = 0;
    let mut hi: u128 = 0x1_0000_0000_0000_0000;
    proof {
        assert((n as int) < 0x1_0000_0000_0000_0000 * 0x1_0000_0000_0000_0000);
    }
    while lo + 1 < hi
        invariant
            lo < hi <= 0x1_0000_0000_0000_0000,
            (lo as int) * (lo as int) <= n as int,
            (n as int) < (hi as int) * (hi as int),
        decreases hi - lo,
    {
        let mid = lo + (hi - lo) / 2;
        proof {
            assert(lo < mid < hi);
            assert((mid as int) * (mid as int) <= u128::MAX as int) by (nonlinear_arith)
                requires
                    0 <= mid as int <= 0xFFFF_FFFF_FFFF_FFFF as int,
            ;
        }
        if mid * mid <= n {
            lo = mid;
        } else {
            hi = mid;
        }
    }
    proof {
        assert(hi == lo + 1);
        assert(is_sqrt_floor(n as int, lo as int));
        lemma_sqrt_floor_is(n as int, lo as int);
    }
    lo as u64
}

} // verus!
