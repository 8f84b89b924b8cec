//! Affine attack-power modifiers.
//!
//! A modifier is a pair `(a, b)` standing for the transform `x -> a * x + b`.
//! The pipeline composes a computed modifier with a caller-supplied override
//! into one transform before a single application, so that the pair acts in
//! one multiply-add instead of two separately rounded steps.

use vstd::prelude::*;

verus! {

use vstd::arithmetic::div_mod::lemma_fundamental_div_mod;
use vstd::arithmetic::div_mod::lemma_hoist_over_denominator;
use crate::fixed::Fixed;
use crate::fixed::SCALE;
use crate::fixed::in_range;
use crate::fixed::mul_raw;

/// An affine transform of attack power: `x` goes to `a * x + b`.
#[derive(Clone, Copy, Debug, PartialEq, Eq, Structural)]
pub struct AttackPowerModifier {
    pub a: Fixed,
    pub b: Fixed,
}

/// Raw value of `m` applied to the raw value `x`: `a * x + b`.
pub open spec fn spec_apply(m: AttackPowerModifier, x: int) -> int {
    mul_raw(m.a.raw as int, x) + m.b.raw
}

/// The intermediate and final values of `spec_apply` are representable.
pub open spec fn apply_fits(m: AttackPowerModifier, x: int) -> bool {
    &&& in_range(mul_raw(m.a.raw as int, x))
    &&& in_range(spec_apply(m, x))
}

/// `a` of the transform equivalent to `first` applied first, `second` second.
pub open spec fn compose_a(first: AttackPowerModifier, second: AttackPowerModifier) -> int {
    mul_raw(first.a.raw as int, second.a.raw as int)
}

/// `b` of the transform equivalent to `first` applied first, `second` second.
pub open spec fn compose_b(first: AttackPowerModifier, second: AttackPowerModifier) -> int {
    mul_raw(first.b.raw as int, second.a.raw as int) + second.b.raw
}

/// The composition of `first` then `second` as a modifier value.
pub open spec fn spec_compose(
    first: AttackPowerModifier,
    second: AttackPowerModifier,
) -> AttackPowerModifier {
    AttackPowerModifier {
        a: Fixed { raw: compose_a(first, second) as i64 },
        b: Fixed { raw: compose_b(first, second) as i64 },
    }
}

/// The components of the composition are representable.
pub open spec fn compose_fits(first: AttackPowerModifier, second: AttackPowerModifier) -> bool {
    &&& in_range(compose_a(first, second))
    &&& in_range(mul_raw(first.b.raw as int, second.a.raw as int))
    &&& in_range(compose_b(first, second))
}

/// Raw result of applying the composition of `first` then `second` to `x`.
pub open spec fn compose_apply(
    first: AttackPowerModifier,
    second: AttackPowerModifier,
    x: int,
) -> int {
    mul_raw(compose_a(first, second), x) + compose_b(first, second)
}

/// Everything `compose_apply` computes is representable.
pub open spec fn compose_apply_fits(
    first: AttackPowerModifier,
    second: AttackPowerModifier,
    x: int,
) -> bool {
    &&& compose_fits(first, second)
    &&& in_range(mul_raw(compose_a(first, second), x))
    &&& in_range(compose_apply(first, second, x))
}

impl AttackPowerModifier {
    pub fn new(a: Fixed, b: Fixed) -> (r: Self)
        ensures
            r.a == a,
            r.b == b,
    {
        AttackPowerModifier { a, b }
    }

    /// The identity transform `x -> 1 * x + 0`.
    pub open spec fn is_identity(self) -> bool {
        self.a.raw == SCALE && self.b.raw == 0
    }

    /// The identity transform.
    pub fn identity() -> (r: Self)
        ensures
            r.is_identity(),
    {
        AttackPowerModifier { a: Fixed { raw: SCALE }, b: Fixed { raw: 0 } }
    }

    /// `a * x + b`.
    pub fn apply(self, x: Fixed) -> (r: Fixed)
        requires
            apply_fits(self, x.raw as int),
        ensures
            r.raw as int == spec_apply(self, x.raw as int),
    {
        self.a.mul(x).add(self.b)
    }

    /// The transform equivalent to `self` applied first and `other` second:
    /// `a = self.a * other.a`, `b = self.b * other.a + other.b`.
    pub fn compose(self, other: Self) -> (r: Self)
        requires
            compose_fits(self, other),
        ensures
            r == spec_compose(self, other),
    {
        AttackPowerModifier { a: self.a.mul(other.a), b: self.b.mul(other.a).add(other.b) }
    }
}

impl Default for AttackPowerModifier {
    /// The default modifier is the identity.
    fn default() -> (r: Self)
        ensures
            r.is_identity(),
    {
        AttackPowerModifier { a: Fixed { raw: SCALE }, b: Fixed { raw: 0 } }
    }
}

/// A modifier whose two components are non-negative.
pub open spec fn nonneg_modifier(m: AttackPowerModifier) -> bool {
    m.a.raw >= 0 && m.b.raw >= 0
}

/// A non-negative modifier applied to a non-negative value stays
/// non-negative.
pub proof fn lemma_apply_nonneg(m: AttackPowerModifier, x: int)
    requires
        nonneg_modifier(m),
        x >= 0,
    ensures
        spec_apply(m, x) >= 0,
{
    crate::fixed::lemma_mul_raw_nonneg(m.a.raw as int, x);
}

/// The composition of non-negative modifiers, applied to a non-negative
/// value, stays non-negative.
pub proof fn lemma_compose_apply_nonneg(
    m1: AttackPowerModifier,
    m2: AttackPowerModifier,
    x: int,
)
    requires
        nonneg_modifier(m1),
        nonneg_modifier(m2),
        x >= 0,
    ensures
        compose_a(m1, m2) >= 0,
        compose_b(m1, m2) >= 0,
        compose_apply(m1, m2, x) >= 0,
{
    crate::fixed::lemma_mul_raw_nonneg(m1.a.raw as int, m2.a.raw as int);
    crate::fixed::lemma_mul_raw_nonneg(m1.b.raw as int, m2.a.raw as int);
    crate::fixed::lemma_mul_raw_nonneg(compose_a(m1, m2), x);
}

/// Law: applying the identity changes nothing.
pub proof fn lemma_identity_applies(m: AttackPowerModifier, x: int)
    requires
        m.is_identity(),
        in_range(x),
    ensures
        spec_apply(m, x) == x,
{
    assert((x * (SCALE as int)) / (SCALE as int) == x) by {
        vstd::arithmetic::div_mod::lemma_div_multiples_vanish(x, SCALE as int);
        vstd::arithmetic::mul::lemma_mul_is_commutative(x, SCALE as int);
    }
    vstd::arithmetic::mul::lemma_mul_is_commutative(m.a.raw as int, x);
}

/// Law: composing `first` then `second` and applying once is applying `first`
/// then `second` in turn, wherever the three products involved stay on the
/// representation's grid (no rounding happens inside either order).
pub proof fn lemma_compose_applies_in_order(
    m1: AttackPowerModifier,
    m2: AttackPowerModifier,
    x: int,
)
    requires
        (m1.a.raw as int * x) % (SCALE as int) == 0,
        (m1.a.raw as int * m2.a.raw as int) % (SCALE as int) == 0,
        (m1.b.raw as int * m2.a.raw as int) % (SCALE as int) == 0,
    ensures
        compose_apply(m1, m2, x) == spec_apply(m2, spec_apply(m1, x)),
{
    let s = SCALE as int;
    let a1 = m1.a.raw as int;
    let b1 = m1.b.raw as int;
    let a2 = m2.a.raw as int;
    let b2 = m2.b.raw as int;
    let j = (a1 * x) / s;
    let k = (a1 * a2) / s;
    let q = (b1 * a2) / s;
    lemma_fundamental_div_mod(a1 * x, s);
    lemma_fundamental_div_mod(a1 * a2, s);
    lemma_fundamental_div_mod(b1 * a2, s);
    assert(s * (a2 * j) == s * (k * x)) by (nonlinear_arith)
        requires
            a1 * x == s * j,
            a1 * a2 == s * k;
    assert(a2 * j == k * x) by (nonlinear_arith)
        requires
            s * (a2 * j) == s * (k * x),
            s == 10000;
    assert(a2 * (j + b1) == k * x + q * s) by (nonlinear_arith)
        requires
            a2 * j == k * x,
            b1 * a2 == s * q;
    assert((k * x + q * s) / s == (k * x) / s + q) by {
        lemma_hoist_over_denominator(k * x, q, SCALE as nat);
    }
    assert(spec_apply(m2, spec_apply(m1, x)) == (a2 * (j + b1)) / s + b2);
    assert(compose_apply(m1, m2, x) == (k * x) / s + q + b2);
}

/// Law: composition is associative wherever the four products involved stay
/// on the representation's grid (no rounding happens in either grouping).
pub proof fn lemma_compose_associative(
    m1: AttackPowerModifier,
    m2: AttackPowerModifier,
    m3: AttackPowerModifier,
)
    requires
        compose_fits(m1, m2),
        compose_fits(m2, m3),
        (m1.a.raw as int * m2.a.raw as int) % (SCALE as int) == 0,
        (m2.a.raw as int * m3.a.raw as int) % (SCALE as int) == 0,
        (m1.b.raw as int * m2.a.raw as int) % (SCALE as int) == 0,
        (m2.b.raw as int * m3.a.raw as int) % (SCALE as int) == 0,
    ensures
        spec_compose(spec_compose(m1, m2), m3) == spec_compose(m1, spec_compose(m2, m3)),
{
    let s = SCALE as int;
    let a1 = m1.a.raw as int;
    let b1 = m1.b.raw as int;
    let a2 = m2.a.raw as int;
    let b2 = m2.b.raw as int;
    let a3 = m3.a.raw as int;
    let b3 = m3.b.raw as int;
    let k = (a1 * a2) / s;
    let j = (a2 * a3) / s;
    let p = (b1 * a2) / s;
    let q = (b2 * a3) / s;
    lemma_fundamental_div_mod(a1 * a2, s);
    lemma_fundamental_div_mod(a2 * a3, s);
    lemma_fundamental_div_mod(b1 * a2, s);
    lemma_fundamental_div_mod(b2 * a3, s);
    assert(s * (k * a3) == s * (a1 * j)) by (nonlinear_arith)
        requires
            a1 * a2 == s * k,
            a2 * a3 == s * j;
    assert(k * a3 == a1 * j) by (nonlinear_arith)
        requires
            s * (k * a3) == s * (a1 * j),
            s == 10000;
    assert(s * (p * a3) == s * (b1 * j)) by (nonlinear_arith)
        requires
            b1 * a2 == s * p,
            a2 * a3 == s * j;
    assert(p * a3 == b1 * j) by (nonlinear_arith)
        requires
            s * (p * a3) == s * (b1 * j),
            s == 10000;
    let c12 = spec_compose(m1, m2);
    let c23 = spec_compose(m2, m3);
    assert(c12.a.raw as int == k);
    assert(c12.b.raw as int == p + b2);
    assert(c23.a.raw as int == j);
    assert(c23.b.raw as int == q + b3);
    let left = spec_compose(c12, m3);
    let right = spec_compose(m1, c23);
    assert(compose_a(c12, m3) == (k * a3) / s);
    assert(compose_a(m1, c23) == (a1 * j) / s);
    assert((p + b2) * a3 == p * a3 + q * s) by (nonlinear_arith)
        requires
            b2 * a3 == s * q;
    assert((p * a3 + q * s) / s == (p * a3) / s + q) by {
        lemma_hoist_over_denominator(p * a3, q, SCALE as nat);
    }
    assert(compose_b(c12, m3) == (p * a3) / s + q + b3);
    assert(compose_b(m1, c23) == (b1 * j) / s + q + b3);
    assert(compose_a(c12, m3) == compose_a(m1, c23));
    assert(compose_b(c12, m3) == compose_b(m1, c23));
}

} // verus!
