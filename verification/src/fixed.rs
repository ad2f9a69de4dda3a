//! Fixed-point arithmetic: every real quantity is an `i64` counted in
//! billionths of a unit.

use vstd::prelude::*;

verus! {

/// The representation of the real number one.
pub const SCALE: i64 = 1_000_000_000;

/// The largest magnitude a coordinate, an extent, a speed or an energy may take.
pub const LIMIT: i64 = 1_000_000_000_000_000;

/// The magnitude of an integer.
pub open spec fn magnitude(x: int) -> int {
    if x < 0 {
        -x
    } else {
        x
    }
}

/// The quotient of `a` by a positive `b`, rounded toward zero.
pub open spec fn quotient(a: int, b: int) -> int
    recommends
        b > 0,
{
    if a >= 0 {
        a / b
    } else {
        -((-a) / b)
    }
}

/// `x` confined to the interval from `lo` to `hi`.
pub open spec fn clamped(x: int, lo: int, hi: int) -> int {
    if x < lo {
        lo
    } else if x > hi {
        hi
    } else {
        x
    }
}

/// The fixed-point product of two fixed-point numbers.
pub open spec fn product(a: int, b: int) -> int {
    quotient(a * b, SCALE as int)
}

/// The fixed-point ratio of two fixed-point numbers.
pub open spec fn ratio(a: int, b: int) -> int
    recommends
        b > 0,
{
    quotient(a * SCALE, b)
}

/// `r` is the integer square root of `n`: the largest integer whose square does not exceed `n`.
pub open spec fn is_root(n: int, r: int) -> bool {
    0 <= r && r * r <= n < (r + 1) * (r + 1)
}

/// The integer square root of `n`.
pub open spec fn root(n: int) -> int {
    choose|r: int| is_root(n, r)
}

/// The fixed-point square root of a non-negative fixed-point number.
pub open spec fn square_root(x: int) -> int {
    root(x * SCALE)
}

/// A number has at most one integer square root.
pub proof fn lemma_root_unique(n: int, r: int)
    requires
        is_root(n, r),
    ensures
        root(n) == r,
{
    let s = root(n);
    assert(is_root(n, s));
    assert(s == r) by (nonlinear_arith)
        requires
            0 <= r,
            0 <= s,
            r * r <= n,
            n < (r + 1) * (r + 1),
            s * s <= n,
            n < (s + 1) * (s + 1),
    ;
}

/// Every number that is not negative has an integer square root.
pub proof fn lemma_root_exists(n: int)
    requires
        n >= 0,
    ensures
        is_root(n, root(n)),
    decreases n,
{
    if n == 0 {
        assert(is_root(0, 0));
    } else {
        lemma_root_exists(n - 1);
        let r = root(n - 1);
        if (r + 1) * (r + 1) <= n {
            assert(is_root(n, r + 1)) by (nonlinear_arith)
                requires
                    0 <= r,
                    n - 1 < (r + 1) * (r + 1),
                    (r + 1) * (r + 1) <= n,
            ;
        } else {
            assert(is_root(n, r));
        }
    }
}

/// The square root of a number below `bound * bound` is below `bound`.
pub proof fn lemma_root_below(n: int, r: int, bound: int)
    requires
        is_root(n, r),
        0 <= bound,
        n <= bound * bound,
    ensures
        r <= bound,
{
    assert(r <= bound) by (nonlinear_arith)
        requires
            0 <= r,
            0 <= bound,
            r * r <= n,
            n <= bound * bound,
    ;
}

/// A product is bounded by the product of the bounds of its factors.
pub proof fn lemma_product_bound(a: int, b: int, ma: int, mb: int)
    requires
        magnitude(a) <= ma,
        magnitude(b) <= mb,
    ensures
        magnitude(a * b) <= ma * mb,
        magnitude(product(a, b)) <= (ma * mb) / (SCALE as int),
        (a >= 0 && b >= 0) || (a <= 0 && b <= 0) ==> a * b >= 0 && product(a, b) >= 0,
{
    assert(magnitude(a * b) <= ma * mb && ((a >= 0 && b >= 0) || (a <= 0 && b <= 0) ==> a * b
        >= 0)) by (nonlinear_arith)
        requires
            magnitude(a) <= ma,
            magnitude(b) <= mb,
    ;
}

/// Multiplying by a fraction between zero and one does not increase a magnitude.
pub proof fn lemma_product_shrinks(a: int, b: int)
    requires
        magnitude(a) <= SCALE,
    ensures
        magnitude(product(a, b)) <= magnitude(b),
{
    assert(magnitude(a * b) <= SCALE * magnitude(b)) by (nonlinear_arith)
        requires
            magnitude(a) <= SCALE,
    ;
}

/// Confines `x` to the interval from `lo` to `hi`.
pub fn clamp(x: i64, lo: i64, hi: i64) -> (r: i64)
    requires
        lo <= hi,
    ensures
        r == clamped(x as int, lo as int, hi as int),
{
    if x < lo {
        lo
    } else if x > hi {
        hi
    } else {
        x
    }
}

/// The exact product of two machine integers, which always fits the wider type.
pub fn wide(a: i64, b: i64) -> (r: i128)
    ensures
        r == a * b,
{
    assert(-0x4000_0000_0000_0000_0000_0000_0000_0000 <= a * b
        <= 0x4000_0000_0000_0000_0000_0000_0000_0000) by (nonlinear_arith)
        requires
            -0x8000_0000_0000_0000 <= a <= 0x8000_0000_0000_0000,
            -0x8000_0000_0000_0000 <= b <= 0x8000_0000_0000_0000,
    ;
    (a as i128) * (b as i128)
}

/// Divides a wide integer by a positive one, rounding toward zero.
pub fn divide(a: i128, b: i128) -> (r: i128)
    requires
        b > 0,
        a > i128::MIN,
    ensures
        r == quotient(a as int, b as int),
{
    if a >= 0 {
        a / b
    } else {
        let m: i128 = -a;
        let q: i128 = m / b;
        assert(0 <= q <= m) by (nonlinear_arith)
            requires
                q == (m as int) / (b as int),
                m >= 0,
                b > 0,
        ;
        -q
    }
}

/// The fixed-point product of `a` and `b`.
pub fn times(a: i64, b: i64) -> (r: i64)
    requires
        i64::MIN <= product(a as int, b as int) <= i64::MAX,
    ensures
        r == product(a as int, b as int),
{
    let q: i128 = divide(wide(a, b), SCALE as i128);
    q as i64
}

/// The fixed-point ratio of `a` to a positive `b`.
pub fn over(a: i64, b: i64) -> (r: i64)
    requires
        b > 0,
        i64::MIN <= ratio(a as int, b as int) <= i64::MAX,
    ensures
        r == ratio(a as int, b as int),
{
    let q: i128 = divide(wide(a, SCALE), b as i128);
    q as i64
}

/// The integer square root of `n`.
pub fn isqrt(n: u128) -> (r: u64)
    requires
        n < 0x4000_0000_0000_0000_0000_0000_0000_0000,
    ensures
        r == root(n as int),
        is_root(n as int, r as int),
{
    let mut lo: u64 = 0;
    let mut hi: u64 = 0x8000_0000_0000_0000;
    while hi - lo > 1
        invariant
            lo < hi <= 0x8000_0000_0000_0000,
            lo * lo <= n < hi * hi,
        decreases hi - lo,
    {
        let mid: u64 = lo + (hi - lo) / 2;
        assert(mid * mid < 0x4000_0000_0000_0000_0000_0000_0000_0000) by (nonlinear_arith)
            requires
                0 <= mid < 0x8000_0000_0000_0000,
        ;
        let square: u128 = (mid as u128) * (mid as u128);
        if square <= n {
            lo = mid;
        } else {
            hi = mid;
        }
    }
    proof {
        assert(hi == lo + 1);
        lemma_root_unique(n as int, lo as int);
    }
    lo
}

/// The fixed-point square root of a non-negative fixed-point number.
pub fn sqrt(x: i64) -> (r: i64)
    requires
        x >= 0,
    ensures
        r == square_root(x as int),
        is_root(x * SCALE, r as int),
        0 <= r <= 100_000_000_000_000,
{
    let n: i128 = wide(x, SCALE);
    let r: u64 = isqrt(n as u128);
    proof {
        lemma_root_below(n as int, r as int, 100_000_000_000_000);
    }
    r as i64
}

} // verus!
