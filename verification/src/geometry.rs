//! Integer points and the arithmetic the canvas does on them.
//!
//! A coordinate is an `i64` count of pixels. Sums and differences of
//! coordinates saturate at the ends of the `i64` range instead of wrapping.

use vstd::prelude::*;

verus! {

/// The coordinate nearest to `v`: `v` itself where it fits in an `i64`,
/// otherwise the end of the range on `v`'s side.
pub open spec fn clamp_coord(v: int) -> i64 {
    if v < i64::MIN {
        i64::MIN
    } else if v > i64::MAX {
        i64::MAX
    } else {
        v as i64
    }
}

/// Whether `v` is a coordinate as it stands, so that `clamp_coord` leaves
/// it alone.
pub open spec fn fits_coord(v: int) -> bool {
    i64::MIN <= v <= i64::MAX
}

/// `a / b` rounded to the nearest integer, a half rounded up. Meant for `b > 0`.
#[verifier::inline]
pub open spec fn round_div(a: int, b: int) -> int {
    (2 * a + b) / (2 * b)
}

/// A point or a displacement, in graph space or in screen space.
#[derive(Clone, Copy, Debug, PartialEq, Eq, Structural)]
pub struct Point {
    pub x: i64,
    pub y: i64,
}

impl Point {
    /// The componentwise sum, each coordinate saturating.
    pub open spec fn spec_plus(self, other: Point) -> Point {
        Point { x: clamp_coord(self.x + other.x), y: clamp_coord(self.y + other.y) }
    }

    /// The componentwise difference, each coordinate saturating.
    pub open spec fn spec_minus(self, other: Point) -> Point {
        Point { x: clamp_coord(self.x - other.x), y: clamp_coord(self.y - other.y) }
    }

    pub fn new(x: i64, y: i64) -> (p: Point)
        ensures
            p == (Point { x, y }),
    {
        Point { x, y }
    }

    /// The point `(0, 0)`.
    pub fn origin() -> (p: Point)
        ensures
            p == (Point { x: 0, y: 0 }),
    {
        Point { x: 0, y: 0 }
    }

    #[verifier::when_used_as_spec(spec_plus)]
    pub fn plus(self, other: Point) -> (p: Point)
        ensures
            p == self.spec_plus(other),
    {
        Point {
            x: clamp_to_coord(self.x as i128 + other.x as i128),
            y: clamp_to_coord(self.y as i128 + other.y as i128),
        }
    }

    #[verifier::when_used_as_spec(spec_minus)]
    pub fn minus(self, other: Point) -> (p: Point)
        ensures
            p == self.spec_minus(other),
    {
        Point {
            x: clamp_to_coord(self.x as i128 - other.x as i128),
            y: clamp_to_coord(self.y as i128 - other.y as i128),
        }
    }
}

/// Brings a wide intermediate result back into the coordinate range.
pub(crate) fn clamp_to_coord(v: i128) -> (c: i64)
    ensures
        c == clamp_coord(v as int),
{
    if v < i64::MIN as i128 {
        i64::MIN
    } else if v > i64::MAX as i128 {
        i64::MAX
    } else {
        v as i64
    }
}

/// The bound on numerators that `div_round` accepts; far above anything a
/// product of a coordinate and a zoom factor can reach.
pub(crate) const DIV_ROUND_LIMIT: i128 = 0x1_0000_0000_0000_0000_0000_0000;

/// Rounded division on machine integers.
pub(crate) fn div_round(a: i128, b: i128) -> (q: i128)
    requires
        0 < b <= DIV_ROUND_LIMIT,
        -DIV_ROUND_LIMIT <= a <= DIV_ROUND_LIMIT,
    ensures
        q == round_div(a as int, b as int),
        a >= 0 ==> 0 <= q <= a,
        a < 0 ==> a <= q <= 0,
{
    proof {
        lemma_round_div_magnitude(a as int, b as int);
    }
    let n: i128 = 2 * a + b;
    let d: i128 = 2 * b;
    if n >= 0 {
        n / d
    } else {
        let m: i128 = -n + (d - 1);
        let k: i128 = m / d;
        proof {
            lemma_floor_of_negative(n as int, d as int);
        }
        -k
    }
}

/// The product of two machine integers, where both are small enough for it.
pub(crate) fn mul_wide(a: i128, b: i128) -> (p: i128)
    requires
        -0x2_0000_0000_0000_0000 <= a <= 0x2_0000_0000_0000_0000,
        0 <= b <= 0x1_0000,
    ensures
        p == a * b,
        -0x2_0000_0000_0000_0000_0000 <= p <= 0x2_0000_0000_0000_0000_0000,
{
    assert(-0x2_0000_0000_0000_0000 * 0x1_0000 <= a * b <= 0x2_0000_0000_0000_0000 * 0x1_0000)
        by (nonlinear_arith)
        requires
            -0x2_0000_0000_0000_0000 <= a <= 0x2_0000_0000_0000_0000,
            0 <= b <= 0x1_0000,
    ;
    a * b
}

/// What `round_div` twice-bounds: `2 * b * q <= 2 * a + b < 2 * b * (q + 1)`.
pub proof fn lemma_round_div_bounds(a: int, b: int)
    by (nonlinear_arith)
    requires
        b > 0,
    ensures
        2 * b * round_div(a, b) <= 2 * a + b < 2 * b * round_div(a, b) + 2 * b,
{
    let n = 2 * a + b;
    let d = 2 * b;
    assert(n == d * (n / d) + n % d && 0 <= n % d < d);
}

/// Rounded division by a positive number never moves away from zero.
pub proof fn lemma_round_div_magnitude(a: int, b: int)
    by (nonlinear_arith)
    requires
        b > 0,
    ensures
        a >= 0 ==> 0 <= round_div(a, b) <= a,
        a < 0 ==> a <= round_div(a, b) <= 0,
{
    let q = round_div(a, b);
    lemma_round_div_bounds(a, b);
    if a >= 0 {
        if q > a {
            assert(2 * b * q >= 2 * b * (a + 1));
            assert(2 * b * (a + 1) == 2 * a * b + 2 * b);
            assert(a * b >= a);
        }
        if q < 0 {
            assert(2 * b * q <= -2 * b);
        }
    } else {
        if q < a {
            assert(2 * b * q <= 2 * b * (a - 1));
            assert(2 * b * (a - 1) == 2 * a * b - 2 * b);
            assert(a * b <= a);
        }
        if q > 0 {
            assert(2 * b * q >= 2 * b);
        }
    }
}

/// For a negative numerator, flooring is rounding the magnitude up.
proof fn lemma_floor_of_negative(n: int, d: int)
    by (nonlinear_arith)
    requires
        n < 0,
        d > 0,
    ensures
        n / d == -((-n + (d - 1)) / d),
{
    let k = (-n + (d - 1)) / d;
    let r = (-n + (d - 1)) % d;
    assert(-n + (d - 1) == k * d + r && 0 <= r < d);
    assert(n == (-k) * d + (d - 1 - r));
    assert(0 <= d - 1 - r < d);
    lemma_quotient_unique(n, d, -k, d - 1 - r);
}

/// A quotient and a remainder in range are the ones that division gives.
pub proof fn lemma_quotient_unique(n: int, d: int, q: int, r: int)
    by (nonlinear_arith)
    requires
        d > 0,
        n == q * d + r,
        0 <= r < d,
    ensures
        n / d == q,
        n % d == r,
{
    let q0 = n / d;
    let r0 = n % d;
    assert(n == q0 * d + r0 && 0 <= r0 < d);
    assert((q - q0) * d == r0 - r);
    if q > q0 {
        assert((q - q0) * d >= d);
    } else if q < q0 {
        assert((q0 - q) * d >= d);
    }
}

} // verus!
