//! Points and headings in the plane, and the rotation that steers a heading.

use vstd::prelude::*;
use rand::rngs::StdRng;
use crate::chance::draw_around_zero;
use crate::fixed::{
    divide, is_root, isqrt, lemma_product_bound, lemma_root_below, magnitude, product, quotient,
    root, times, wide, LIMIT, SCALE,
};

verus! {

/// Each component of the heading that stands in for one too short to scale: one over the square root of two.
pub const DIAGONAL: i64 = 707_106_781;

/// The length below which a vector is too short to be scaled to a heading.
pub const SHORTEST: i64 = 10_000_000;

/// A point, or a vector, of the plane.
#[derive(Clone, Copy, Debug, PartialEq, Eq, Structural)]
pub struct Point {
    pub x: i64,
    pub y: i64,
}

impl Point {
    /// Both coordinates lie within `bound` of zero.
    pub open spec fn within(&self, bound: int) -> bool {
        -bound <= self.x <= bound && -bound <= self.y <= bound
    }

    /// A heading has both components in [-1, 1] and is as long as one.
    pub open spec fn is_heading(&self) -> bool {
        self.within(SCALE as int) && unit_length(self.x as int, self.y as int)
    }

    /// Tells whether the point is a heading.
    pub fn is_unit(&self) -> (r: bool)
        ensures
            r == self.is_heading(),
    {
        if self.x < -SCALE || self.x > SCALE || self.y < -SCALE || self.y > SCALE {
            return false;
        }
        proof {
            lemma_product_bound(self.x as int, self.x as int, 1_000_000_000, 1_000_000_000);
            lemma_product_bound(self.y as int, self.y as int, 1_000_000_000, 1_000_000_000);
            assert(1_000_000_000int * 1_000_000_000int == 1_000_000_000_000_000_000int);
        }
        let square: i128 = wide(self.x, self.x) + wide(self.y, self.y);
        999_999_995_999_999_998 < square && square <= 1_000_001_000_000_000_000
    }
}

/// The length of the vector `(x, y)`, rounded down.
pub open spec fn length(x: int, y: int) -> int {
    root(x * x + y * y)
}

/// The vector `(x, y)` scaled to length one, or the diagonal heading where
/// it is too short to be scaled.
pub open spec fn normalized(x: int, y: int) -> Point {
    let len = length(x, y);
    if len > SHORTEST {
        Point { x: quotient(x * SCALE, len) as i64, y: quotient(y * SCALE, len) as i64 }
    } else {
        Point { x: DIAGONAL, y: DIAGONAL }
    }
}

/// The cosine of an angle in [-1, 1], in radians, by its series up to the eighth power.
pub open spec fn cosine(a: int) -> int {
    let x2 = product(a, a);
    let x4 = product(x2, x2);
    let x6 = product(x4, x2);
    let x8 = product(x4, x4);
    SCALE - x2 / 2 + x4 / 24 - x6 / 720 + x8 / 40320
}

/// The sine of an angle in [-1, 1], in radians, by its series up to the ninth power.
pub open spec fn sine(a: int) -> int {
    let x2 = product(a, a);
    let x4 = product(x2, x2);
    let x6 = product(x4, x2);
    let x8 = product(x4, x4);
    product(a, SCALE - x2 / 6 + x4 / 120 - x6 / 5040 + x8 / 362880)
}

/// The heading `h` turned clockwise by `angle` and scaled back to length
/// one. Both new components come from the heading as it was.
pub open spec fn rotated(h: Point, angle: int) -> Point {
    let c = cosine(angle);
    let s = sine(angle);
    normalized(
        product(c, h.x as int) + product(s, h.y as int),
        product(c, h.y as int) - product(s, h.x as int),
    )
}

/// The fixed-point product of two fractions of one is a fraction of one.
pub proof fn lemma_fraction_product(a: int, b: int)
    requires
        0 <= a <= SCALE,
        0 <= b <= SCALE,
    ensures
        0 <= product(a, b) <= SCALE,
{
    lemma_product_bound(a, b, SCALE as int, SCALE as int);
    assert(SCALE * SCALE == 1_000_000_000_000_000_000);
}

/// The squares of an angle in [-1, 1] up to its eighth power are fractions of one.
pub proof fn lemma_powers(a: int)
    requires
        -SCALE <= a <= SCALE,
    ensures
        0 <= product(a, a) <= SCALE,
        0 <= product(product(a, a), product(a, a)) <= SCALE,
        0 <= product(product(product(a, a), product(a, a)), product(a, a)) <= SCALE,
        0 <= product(product(product(a, a), product(a, a)), product(product(a, a), product(a, a)))
            <= SCALE,
{
    lemma_product_bound(a, a, SCALE as int, SCALE as int);
    assert(SCALE * SCALE == 1_000_000_000_000_000_000);
    let x2 = product(a, a);
    lemma_fraction_product(x2, x2);
    let x4 = product(x2, x2);
    lemma_fraction_product(x4, x2);
    lemma_fraction_product(x4, x4);
}

/// The cosine of an angle in [-1, 1].
pub fn cos(a: i64) -> (r: i64)
    requires
        -SCALE <= a <= SCALE,
    ensures
        r == cosine(a as int),
        0 <= r <= 2 * SCALE,
{
    proof {
        lemma_powers(a as int);
    }
    let x2: i64 = times(a, a);
    let x4: i64 = times(x2, x2);
    let x6: i64 = times(x4, x2);
    let x8: i64 = times(x4, x4);
    SCALE - x2 / 2 + x4 / 24 - x6 / 720 + x8 / 40320
}

/// The sine of an angle in [-1, 1].
pub fn sin(a: i64) -> (r: i64)
    requires
        -SCALE <= a <= SCALE,
    ensures
        r == sine(a as int),
        -2 * SCALE <= r <= 2 * SCALE,
{
    proof {
        lemma_powers(a as int);
    }
    let x2: i64 = times(a, a);
    let x4: i64 = times(x2, x2);
    let x6: i64 = times(x4, x2);
    let x8: i64 = times(x4, x4);
    let inner: i64 = SCALE - x2 / 6 + x4 / 120 - x6 / 5040 + x8 / 362880;
    proof {
        lemma_product_bound(a as int, inner as int, SCALE as int, 2 * SCALE);
        assert(SCALE * (2 * SCALE) == 2_000_000_000_000_000_000);
    }
    times(a, inner)
}

/// A component of a vector is no longer than the vector, so scaling the
/// vector to length one leaves the component in [-1, 1].
pub proof fn lemma_component_scaled(x: int, y: int, len: int)
    requires
        is_root(x * x + y * y, len),
        len > 0,
    ensures
        -SCALE <= quotient(x * SCALE, len) <= SCALE,
{
    assert(magnitude(x) <= len) by (nonlinear_arith)
        requires
            x * x + y * y < (len + 1) * (len + 1),
            len >= 0,
    ;
    let m = magnitude(x);
    assert(0 <= (m * SCALE) / len <= SCALE) by (nonlinear_arith)
        requires
            0 <= m <= len,
            len > 0,
    ;
    assert(magnitude(x * SCALE) == m * SCALE) by (nonlinear_arith)
        requires
            m == magnitude(x),
    ;
}

/// The vector `(x, y)` is as long as one, up to what rounding takes or
/// gives: its squared length lies within a millionth above one and four
/// billionths below.
pub open spec fn unit_length(x: int, y: int) -> bool {
    999_999_995_999_999_998 < x * x + y * y <= 1_000_001_000_000_000_000
}

/// Squaring keeps the order of numbers that are not negative.
pub proof fn lemma_square_order(p: int, q: int)
    requires
        0 <= p <= q,
    ensures
        p * p <= q * q,
        p < q ==> p * p < q * q,
{
    assert(p * p <= q * q && (p < q ==> p * p < q * q)) by (nonlinear_arith)
        requires
            0 <= p <= q,
    ;
}

/// How a component scaled by `SCALE / len` and rounded toward zero relates
/// to the unrounded one: its magnitude `a` satisfies
/// `a * len <= |x| * SCALE < (a + 1) * len`, so that the squares do too.
pub proof fn lemma_scaled_square(x: int, len: int) -> (a: int)
    requires
        len > 0,
    ensures
        0 <= a,
        quotient(x * SCALE, len) * quotient(x * SCALE, len) == a * a,
        (a * a) * (len * len) <= (x * x) * (SCALE * SCALE),
        (x * x) * (SCALE * SCALE) < ((a + 1) * (a + 1)) * (len * len),
{
    let m = magnitude(x);
    let a = (m * SCALE) / len;
    let q = quotient(x * SCALE, len);
    assert(magnitude(x * SCALE) == m * SCALE) by (nonlinear_arith)
        requires
            m == magnitude(x),
            SCALE == 1_000_000_000,
    ;
    assert(m * SCALE >= 0) by (nonlinear_arith)
        requires
            m >= 0,
            SCALE == 1_000_000_000,
    ;
    assert(q == a || q == -a);
    assert(q * q == a * a) by (nonlinear_arith)
        requires
            q == a || q == -a,
    ;
    let n = m * SCALE;
    assert(0 <= a && a * len <= n && n < (a + 1) * len) by (nonlinear_arith)
        requires
            a == n / len,
            n >= 0,
            len > 0,
    ;
    lemma_square_order(a * len, n);
    lemma_square_order(n, (a + 1) * len);
    assert((a * len) * (a * len) == (a * a) * (len * len)) by (nonlinear_arith);
    assert(((a + 1) * len) * ((a + 1) * len) == ((a + 1) * (a + 1)) * (len * len))
        by (nonlinear_arith);
    assert(n * n == (x * x) * (SCALE * SCALE)) by (nonlinear_arith)
        requires
            n == m * SCALE,
            m == x || m == -x,
    ;
    a
}

/// A vector longer than the shortest that can be scaled is, once scaled,
/// as long as one.
pub proof fn lemma_scaled_unit(x: int, y: int, len: int)
    requires
        is_root(x * x + y * y, len),
        len > SHORTEST,
    ensures
        unit_length(quotient(x * SCALE, len), quotient(y * SCALE, len)),
{
    let a = lemma_scaled_square(x, len);
    let b = lemma_scaled_square(y, len);
    lemma_component_scaled(x, y, len);
    assert(y * y + x * x == x * x + y * y);
    lemma_component_scaled(y, x, len);
    let s2 = SCALE * SCALE;
    assert(s2 == 1_000_000_000_000_000_000);
    let l2 = len * len;
    assert(l2 > 0) by (nonlinear_arith)
        requires
            l2 == len * len,
            len > 0,
    ;
    let n = x * x + y * y;
    let t = a * a + b * b;
    let u = (a + 1) * (a + 1) + (b + 1) * (b + 1);
    assert(a * a <= s2 && b * b <= s2) by {
        assert(quotient(x * SCALE, len) * quotient(x * SCALE, len) <= SCALE * SCALE)
            by (nonlinear_arith)
            requires
                -SCALE <= quotient(x * SCALE, len) <= SCALE,
        ;
        assert(quotient(y * SCALE, len) * quotient(y * SCALE, len) <= SCALE * SCALE)
            by (nonlinear_arith)
            requires
                -SCALE <= quotient(y * SCALE, len) <= SCALE,
        ;
    }
    assert(a <= SCALE && b <= SCALE) by (nonlinear_arith)
        requires
            0 <= a,
            0 <= b,
            a * a <= SCALE * SCALE,
            b * b <= SCALE * SCALE,
            SCALE == 1_000_000_000,
    ;
    assert(t * l2 <= n * s2 && n * s2 < u * l2) by (nonlinear_arith)
        requires
            (a * a) * l2 <= (x * x) * s2,
            (b * b) * l2 <= (y * y) * s2,
            (x * x) * s2 < ((a + 1) * (a + 1)) * l2,
            (y * y) * s2 < ((b + 1) * (b + 1)) * l2,
            t == a * a + b * b,
            u == (a + 1) * (a + 1) + (b + 1) * (b + 1),
            n == x * x + y * y,
    ;
    assert(l2 * s2 <= n * s2 && n * s2 < ((len + 1) * (len + 1)) * s2) by (nonlinear_arith)
        requires
            l2 == len * len,
            l2 <= n,
            n < (len + 1) * (len + 1),
            s2 > 0,
    ;
    assert(u > s2) by (nonlinear_arith)
        requires
            l2 * s2 < u * l2,
            l2 > 0,
    ;
    assert(u == t + 2 * a + 2 * b + 2) by (nonlinear_arith)
        requires
            t == a * a + b * b,
            u == (a + 1) * (a + 1) + (b + 1) * (b + 1),
    ;
    assert(1_000_000 * ((len + 1) * (len + 1)) <= 1_000_001 * l2) by (nonlinear_arith)
        requires
            len > 10_000_000,
            l2 == len * len,
    ;
    assert(1_000_000 * t < 1_000_001 * s2) by (nonlinear_arith)
        requires
            t * l2 < ((len + 1) * (len + 1)) * s2,
            1_000_000 * ((len + 1) * (len + 1)) <= 1_000_001 * l2,
            l2 > 0,
            s2 > 0,
            t >= 0,
    ;
}

/// The length of the vector `(x, y)`, rounded down.
pub fn measure(x: i64, y: i64) -> (r: i64)
    requires
        -4 * LIMIT <= x <= 4 * LIMIT,
        -4 * LIMIT <= y <= 4 * LIMIT,
    ensures
        r == length(x as int, y as int),
        is_root(x * x + y * y, r as int),
        0 <= r <= 6 * LIMIT,
{
    proof {
        lemma_product_bound(x as int, x as int, 4_000_000_000_000_000, 4_000_000_000_000_000);
        lemma_product_bound(y as int, y as int, 4_000_000_000_000_000, 4_000_000_000_000_000);
        assert(4_000_000_000_000_000int * 4_000_000_000_000_000int
            == 16_000_000_000_000_000_000_000_000_000_000int);
        assert(6_000_000_000_000_000int * 6_000_000_000_000_000int
            == 36_000_000_000_000_000_000_000_000_000_000int);
    }
    let square: i128 = wide(x, x) + wide(y, y);
    let len: u64 = isqrt(square as u128);
    proof {
        lemma_root_below(square as int, len as int, 6_000_000_000_000_000);
    }
    len as i64
}

/// Scales a vector to length one; one too short becomes the diagonal heading.
pub fn normalize(x: i64, y: i64) -> (r: Point)
    requires
        -4 * LIMIT <= x <= 4 * LIMIT,
        -4 * LIMIT <= y <= 4 * LIMIT,
    ensures
        r == normalized(x as int, y as int),
        r.is_heading(),
{
    let len: i64 = measure(x, y);
    if len > SHORTEST {
        proof {
            lemma_component_scaled(x as int, y as int, len as int);
            assert(y * y + x * x == x * x + y * y);
            lemma_component_scaled(y as int, x as int, len as int);
            lemma_scaled_unit(x as int, y as int, len as int);
        }
        let nx: i128 = divide(wide(x, SCALE), len as i128);
        let ny: i128 = divide(wide(y, SCALE), len as i128);
        Point { x: nx as i64, y: ny as i64 }
    } else {
        assert(unit_length(DIAGONAL as int, DIAGONAL as int)) by {
            assert(707_106_781int * 707_106_781int == 499_999_999_736_181_961int);
        }
        Point { x: DIAGONAL, y: DIAGONAL }
    }
}

/// Turns a heading clockwise by `angle` radians and scales it back to
/// length one.
pub fn rotate_direction(heading: Point, angle: i64) -> (r: Point)
    requires
        heading.is_heading(),
        -SCALE <= angle <= SCALE,
    ensures
        r == rotated(heading, angle as int),
        r.is_heading(),
{
    let c: i64 = cos(angle);
    let s: i64 = sin(angle);
    proof {
        lemma_product_bound(c as int, heading.x as int, 2 * SCALE, SCALE as int);
        lemma_product_bound(c as int, heading.y as int, 2 * SCALE, SCALE as int);
        lemma_product_bound(s as int, heading.x as int, 2 * SCALE, SCALE as int);
        lemma_product_bound(s as int, heading.y as int, 2 * SCALE, SCALE as int);
        assert((2 * SCALE) * SCALE == 2_000_000_000_000_000_000);
    }
    let x: i64 = times(c, heading.x) + times(s, heading.y);
    let y: i64 = times(c, heading.y) - times(s, heading.x);
    normalize(x, y)
}

/// The heading that two draws from [-1/2, 1/2) point along.
pub fn heading_from_draws(dx: i64, dy: i64) -> (r: Point)
    requires
        -SCALE <= dx <= SCALE,
        -SCALE <= dy <= SCALE,
    ensures
        r == normalized(dx as int, dy as int),
        r.is_heading(),
{
    normalize(dx, dy)
}

/// A heading drawn at random.
pub fn random_direction(rng: &mut StdRng) -> (r: Point)
    ensures
        r.is_heading(),
{
    let dx: i64 = draw_around_zero(rng, 500_000_000);
    let dy: i64 = draw_around_zero(rng, 500_000_000);
    heading_from_draws(dx, dy)
}

} // verus!
