//! Fixed-point numbers: the engine's scalar values.
//!
//! Every quantity the engine works with (powers, modifiers, accuracy terms)
//! is a `Fixed`: an integer count of ten-thousandths of a unit. Products are
//! rounded toward negative infinity to the same grid, `floor` drops the
//! fractional part of a value, and `sqrt` is the square root rounded down
//! to the grid.

use vstd::prelude::*;

verus! {

use vstd::arithmetic::div_mod::lemma_fundamental_div_mod;

/// Number of raw steps in one unit: four decimal places.
pub const SCALE: i64 = 10000;

/// Whether a mathematical value fits the raw `i64` representation.
pub open spec fn in_range(x: int) -> bool {
    i64::MIN <= x <= i64::MAX
}

/// Raw value of the product of two fixed-point numbers, rounded toward
/// negative infinity.
pub open spec fn mul_raw(x: int, y: int) -> int {
    (x * y) / (SCALE as int)
}

/// Raw value of a fixed-point number with its fractional part dropped.
pub open spec fn floor_raw(x: int) -> int {
    (x / (SCALE as int)) * (SCALE as int)
}

/// `r` is the integer square root of `n`, rounded down.
pub open spec fn is_sqrt_of(n: int, r: int) -> bool {
    0 <= r && r * r <= n && n < (r + 1) * (r + 1)
}

/// The integer square root of `n`, rounded down (for `n >= 0`).
pub closed spec fn sqrt_floor(n: int) -> int {
    choose|r: int| is_sqrt_of(n, r)
}

/// Raw value of the square root of a fixed-point number, rounded down
/// to the representation's grid.
pub open spec fn sqrt_raw(x: int) -> int {
    sqrt_floor(x * (SCALE as int))
}

proof fn lemma_sqrt_exists(n: nat)
    ensures
        exists|r: int| is_sqrt_of(n as int, r),
    decreases n,
{
    if n == 0 {
        assert(is_sqrt_of(0, 0));
    } else {
        lemma_sqrt_exists((n - 1) as nat);
        let m = n - 1;
        let r = choose|r: int| is_sqrt_of(m, r);
        if (r + 1) * (r + 1) <= n {
            assert(is_sqrt_of(n as int, r + 1)) by (nonlinear_arith)
                requires
                    is_sqrt_of(n - 1, r),
                    (r + 1) * (r + 1) <= n;
        } else {
            assert(is_sqrt_of(n as int, r));
        }
    }
}

/// `sqrt_floor(n)` really is the rounded-down square root of `n`.
pub proof fn lemma_sqrt_floor_def(n: int)
    requires
        n >= 0,
    ensures
        is_sqrt_of(n, sqrt_floor(n)),
{
    lemma_sqrt_exists(n as nat);
}

/// The rounded-down square root is unique.
pub proof fn lemma_sqrt_floor_unique(n: int, r: int)
    requires
        is_sqrt_of(n, r),
    ensures
        sqrt_floor(n) == r,
{
    assert(n >= 0) by (nonlinear_arith)
        requires
            is_sqrt_of(n, r);
    lemma_sqrt_floor_def(n);
    let s = sqrt_floor(n);
    if s < r {
        assert((s + 1) * (s + 1) <= r * r) by (nonlinear_arith)
            requires
                0 <= s + 1 <= r;
    } else if r < s {
        assert((r + 1) * (r + 1) <= s * s) by (nonlinear_arith)
            requires
                0 <= r + 1 <= s;
    }
}

/// The product of non-negative values is non-negative.
pub proof fn lemma_mul_raw_nonneg(x: int, y: int)
    requires
        x >= 0,
        y >= 0,
    ensures
        mul_raw(x, y) >= 0,
{
    assert(x * y >= 0) by (nonlinear_arith)
        requires
            x >= 0,
            y >= 0;
    if x * y > 0 {
        vstd::arithmetic::div_mod::lemma_div_pos_is_pos(x * y, SCALE as int);
    } else {
        assert(x * y == 0);
        vstd::arithmetic::div_mod::lemma_div_of0(SCALE as int);
    }
}

/// Flooring keeps a non-negative value non-negative.
pub proof fn lemma_floor_raw_nonneg(x: int)
    requires
        x >= 0,
    ensures
        floor_raw(x) >= 0,
{
    if x > 0 {
        vstd::arithmetic::div_mod::lemma_div_pos_is_pos(x, SCALE as int);
    } else {
        vstd::arithmetic::div_mod::lemma_div_of0(SCALE as int);
    }
    assert(x / (SCALE as int) >= 0);
}

/// The square root of a non-negative value is non-negative.
pub proof fn lemma_sqrt_raw_nonneg(x: int)
    requires
        x >= 0,
    ensures
        sqrt_raw(x) >= 0,
{
    lemma_sqrt_floor_def(x * (SCALE as int));
}

fn isqrt_u128(n: u128) -> (r: u64)
    requires
        n < 0x10000000000000000000000000u128,
    ensures
        is_sqrt_of(n as int, r as int),
{
    let mut lo: u64 = 0;
    let mut hi: u64 = 0x4000000000000u64;
    assert((hi as int) * (hi as int) == 0x10000000000000000000000000);
    while hi - lo > 1
        invariant
            lo < hi,
            hi <= 0x4000000000000u64,
            (lo as int) * (lo as int) <= n as int,
            (n as int) < (hi as int) * (hi as int),
        decreases hi - lo,
    {
        let mid: u64 = lo + (hi - lo) / 2;
        assert(lo < mid < hi);
        assert((mid as int) * (mid as int) < 0x10000000000000000000000000) by (nonlinear_arith)
            requires
                mid < 0x4000000000000u64;
        let sq: u128 = (mid as u128) * (mid as u128);
        if sq <= n {
            lo = mid;
        } else {
            hi = mid;
        }
    }
    assert(hi == lo + 1);
    lo
}

/// A fixed-point number: `raw` counts ten-thousandths of a unit.
#[derive(Clone, Copy, Debug, PartialEq, Eq, Structural)]
pub struct Fixed {
    pub raw: i64,
}

impl Fixed {
    /// The value zero.
    pub fn zero() -> (r: Fixed)
        ensures
            r.raw == 0,
    {
        Fixed { raw: 0 }
    }

    /// The value one: the identity of multiplication.
    pub fn one() -> (r: Fixed)
        ensures
            r.raw == SCALE,
    {
        Fixed { raw: SCALE }
    }

    /// The largest representable value.
    pub fn max_value() -> (r: Fixed)
        ensures
            r.raw == i64::MAX,
    {
        Fixed { raw: i64::MAX }
    }

    /// The number whose raw count of ten-thousandths is `raw`.
    pub fn from_scaled(raw: i64) -> (r: Fixed)
        ensures
            r.raw == raw,
    {
        Fixed { raw }
    }

    /// The whole number `n`.
    pub fn from_units(n: i64) -> (r: Fixed)
        requires
            in_range(n as int * SCALE as int),
        ensures
            r.raw as int == n as int * SCALE as int,
    {
        Fixed { raw: n * SCALE }
    }

    /// Whether the value is a whole number of units.
    pub fn is_integral(self) -> (r: bool)
        ensures
            r == (self.raw as int % (SCALE as int) == 0),
    {
        proof {
            lemma_fundamental_div_mod(self.raw as int, SCALE as int);
        }
        self.raw.checked_rem_euclid(SCALE).unwrap() == 0
    }

    pub fn add(self, other: Fixed) -> (r: Fixed)
        requires
            in_range(self.raw + other.raw),
        ensures
            r.raw as int == self.raw + other.raw,
    {
        Fixed { raw: self.raw + other.raw }
    }

    pub fn sub(self, other: Fixed) -> (r: Fixed)
        requires
            in_range(self.raw - other.raw),
        ensures
            r.raw as int == self.raw - other.raw,
    {
        Fixed { raw: self.raw - other.raw }
    }

    pub fn mul(self, other: Fixed) -> (r: Fixed)
        requires
            in_range(mul_raw(self.raw as int, other.raw as int)),
        ensures
            r.raw as int == mul_raw(self.raw as int, other.raw as int),
    {
        let p: i128 = (self.raw as i128) * (other.raw as i128);
        proof {
            lemma_fundamental_div_mod(p as int, SCALE as int);
        }
        let q: i128 = p.checked_div_euclid(10000).unwrap();
        Fixed { raw: q as i64 }
    }

    /// The value with its fractional part dropped (rounded toward
    /// negative infinity).
    pub fn floor(self) -> (r: Fixed)
        requires
            in_range(floor_raw(self.raw as int)),
        ensures
            r.raw as int == floor_raw(self.raw as int),
    {
        proof {
            lemma_fundamental_div_mod(self.raw as int, SCALE as int);
        }
        let q: i64 = self.raw.checked_div_euclid(SCALE).unwrap();
        Fixed { raw: q * SCALE }
    }

    /// The square root, rounded down to the representation's grid.
    pub fn sqrt(self) -> (r: Fixed)
        requires
            self.raw >= 0,
        ensures
            r.raw as int == sqrt_raw(self.raw as int),
    {
        proof {
            assert((self.raw as int) * (SCALE as int) < 0x10000000000000000000000000) by (nonlinear_arith)
                requires
                    0 <= self.raw <= i64::MAX,
                    SCALE == 10000;
        }
        let n: u128 = (self.raw as u128) * (SCALE as u128);
        let s: u64 = isqrt_u128(n);
        proof {
            lemma_sqrt_floor_unique(n as int, s as int);
            assert(s as int * s as int <= n < 0x10000000000000000000000000);
            assert(s < 0x4000000000000u64) by (nonlinear_arith)
                requires
                    (s as int) * (s as int) < 0x10000000000000000000000000;
        }
        Fixed { raw: s as i64 }
    }

    pub fn gt(self, other: Fixed) -> (r: bool)
        ensures
            r == (self.raw > other.raw),
    {
        self.raw > other.raw
    }
}

} // verus!
