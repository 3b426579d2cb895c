//! The scalar measurement type that all geometry is parameterized over.
//!
//! The layout model is unit-agnostic, so this library uses a fixed-point
//! representation: a `Unit` carries a signed count of subunits, `SCALE` of
//! which make one whole unit. The two extreme `i64` values stand for
//! positive and negative infinity; the sizing algorithms rely on infinities
//! for unbounded growth limits and unconstrained available space.

use vstd::prelude::*;

verus! {

/// Number of subunits in one whole unit of measurement.
pub const SCALE: i64 = 65536;

/// Representation of positive infinity.
pub const INF: i64 = i64::MAX;

/// Representation of negative infinity.
pub const NEG_INF: i64 = i64::MIN;

/// Largest whole-unit magnitude accepted by `Unit::from_int`
/// (so that the scaled value stays strictly inside the finite range).
pub const MAX_WHOLE: i64 = 140_000_000_000_000;

/// Whether a representation stands for a finite number
/// (anything strictly between the two infinities).
pub open spec fn finite_repr(r: int) -> bool {
    (NEG_INF as int) < r < (INF as int)
}

/// Clamp an unbounded arithmetic result into the representable range;
/// a result at or beyond an extreme becomes the corresponding infinity.
pub open spec fn clamp_repr(x: int) -> int {
    if x >= (INF as int) {
        INF as int
    } else if x <= (NEG_INF as int) {
        NEG_INF as int
    } else {
        x
    }
}

/// Magnitude of a representation.
pub open spec fn abs_repr(x: int) -> int {
    if x < 0 {
        -x
    } else {
        x
    }
}

/// Whether two nonzero representations agree in sign.
pub open spec fn same_sign(a: int, b: int) -> bool {
    (a > 0) == (b > 0)
}

/// The smaller of two representations; the minimum of any value and
/// positive infinity is that value.
pub open spec fn min_repr(a: int, b: int) -> int {
    if a <= b {
        a
    } else {
        b
    }
}

/// The larger of two representations.
pub open spec fn max_repr(a: int, b: int) -> int {
    if a >= b {
        a
    } else {
        b
    }
}

/// Saturating addition: a positive infinity absorbs everything, a negative
/// infinity absorbs everything finite, and a finite overflow saturates.
pub open spec fn spec_add(a: int, b: int) -> int {
    if a == (INF as int) || b == (INF as int) {
        INF as int
    } else if a == (NEG_INF as int) || b == (NEG_INF as int) {
        NEG_INF as int
    } else {
        clamp_repr(a + b)
    }
}

/// Negation swaps the infinities and is exact on finite values.
pub open spec fn spec_neg(a: int) -> int {
    if a == (INF as int) {
        NEG_INF as int
    } else if a == (NEG_INF as int) {
        INF as int
    } else {
        -a
    }
}

/// Subtraction is addition of the negation.
pub open spec fn spec_sub(a: int, b: int) -> int {
    spec_add(a, spec_neg(b))
}

/// Fixed-point multiplication: the product of the operands' magnitudes,
/// rescaled by `SCALE`, truncated toward zero, with the sign of the
/// operands; zero absorbs, and an infinite operand gives a signed infinity.
pub open spec fn spec_mul(a: int, b: int) -> int {
    if a == 0 || b == 0 {
        0
    } else if !finite_repr(a) || !finite_repr(b) {
        if same_sign(a, b) {
            INF as int
        } else {
            NEG_INF as int
        }
    } else {
        let mag = (abs_repr(a) * abs_repr(b)) / (SCALE as int);
        if same_sign(a, b) {
            clamp_repr(mag)
        } else {
            clamp_repr(-mag)
        }
    }
}

/// Fixed-point division, truncated toward zero. Division of a nonzero value
/// by zero gives a signed infinity; an infinite dividend gives a signed
/// infinity; a finite value divided by an infinity gives zero.
pub open spec fn spec_div(a: int, b: int) -> int {
    if b == 0 {
        if a == 0 {
            0
        } else if a > 0 {
            INF as int
        } else {
            NEG_INF as int
        }
    } else if !finite_repr(a) {
        if same_sign(a, b) {
            INF as int
        } else {
            NEG_INF as int
        }
    } else if !finite_repr(b) {
        0
    } else if a == 0 {
        0
    } else {
        let mag = (abs_repr(a) * (SCALE as int)) / abs_repr(b);
        if same_sign(a, b) {
            clamp_repr(mag)
        } else {
            clamp_repr(-mag)
        }
    }
}

/// Growing a value by a nonnegative finite amount bounded by its headroom
/// (the saturating difference from a cap above it) never passes the cap,
/// and never shrinks the value.
pub proof fn lemma_grow_within_cap(b: int, cap: int, inc: int)
    requires
        0 <= b < cap <= (INF as int),
        0 <= inc < (INF as int),
        inc <= spec_sub(cap, b),
    ensures
        b <= spec_add(b, inc) <= cap,
{
}

/// A linear measurement: a fixed-point count of subunits, or an infinity.
#[derive(Clone, Copy, Debug, PartialEq, Eq, Structural)]
pub struct Unit {
    /// Subunit count; `INF` and `NEG_INF` stand for the infinities.
    pub repr: i64,
}

/// Clamp an intermediate wide result into the representable range.
fn clamp_i128(x: i128) -> (r: i64)
    ensures
        r as int == clamp_repr(x as int),
{
    if x >= i64::MAX as i128 {
        i64::MAX
    } else if x <= i64::MIN as i128 {
        i64::MIN
    } else {
        x as i64
    }
}

impl Unit {
    /// The representation as a mathematical integer.
    pub open spec fn as_int(self) -> int {
        self.repr as int
    }

    /// Whether the value is a finite number.
    pub open spec fn is_finite(self) -> bool {
        finite_repr(self.repr as int)
    }

    /// The zero measurement.
    pub fn zero() -> (r: Unit)
        ensures
            r.repr == 0,
    {
        Unit { repr: 0 }
    }

    /// Positive infinity.
    pub fn infinity() -> (r: Unit)
        ensures
            r.repr == INF,
    {
        Unit { repr: i64::MAX }
    }

    /// Negative infinity.
    pub fn neg_infinity() -> (r: Unit)
        ensures
            r.repr == NEG_INF,
    {
        Unit { repr: i64::MIN }
    }

    /// The smallest positive measurement; two definite values closer than
    /// this are treated as equal by the cache's rough comparison.
    pub fn epsilon() -> (r: Unit)
        ensures
            r.repr == 1,
    {
        Unit { repr: 1 }
    }

    /// A measurement of `v` whole units.
    pub fn from_int(v: i64) -> (r: Unit)
        requires
            -MAX_WHOLE <= v <= MAX_WHOLE,
        ensures
            r.repr == v * SCALE,
            r.is_finite(),
    {
        Unit { repr: v * SCALE }
    }

    /// A measurement straight from a subunit count.
    pub fn from_subunits(repr: i64) -> (r: Unit)
        ensures
            r.repr == repr,
    {
        Unit { repr }
    }

    /// Whether the value is strictly positive.
    pub fn is_positive(self) -> (r: bool)
        ensures
            r == (self.repr > 0),
    {
        self.repr > 0
    }

    /// Whether the value is positive infinity.
    pub fn is_infinite(self) -> (r: bool)
        ensures
            r == (self.repr == INF),
    {
        self.repr == i64::MAX
    }

    /// Strict less-than on the representation order
    /// (negative infinity below everything, positive infinity above).
    pub fn lt(self, rhs: Unit) -> (r: bool)
        ensures
            r == (self.repr < rhs.repr),
    {
        self.repr < rhs.repr
    }

    /// Less-than-or-equal on the representation order.
    pub fn le(self, rhs: Unit) -> (r: bool)
        ensures
            r == (self.repr <= rhs.repr),
    {
        self.repr <= rhs.repr
    }

    /// Strict greater-than on the representation order.
    pub fn gt(self, rhs: Unit) -> (r: bool)
        ensures
            r == (self.repr > rhs.repr),
    {
        self.repr > rhs.repr
    }

    /// Greater-than-or-equal on the representation order.
    pub fn ge(self, rhs: Unit) -> (r: bool)
        ensures
            r == (self.repr >= rhs.repr),
    {
        self.repr >= rhs.repr
    }

    /// The smaller of two measurements; the minimum of any value and
    /// positive infinity is that value.
    pub fn min(self, rhs: Unit) -> (r: Unit)
        ensures
            r.repr == if self.repr <= rhs.repr {
                self.repr
            } else {
                rhs.repr
            },
            r == self.spec_minimum(rhs),
    {
        if self.repr <= rhs.repr {
            self
        } else {
            rhs
        }
    }

    /// The larger of two measurements.
    pub fn max(self, rhs: Unit) -> (r: Unit)
        ensures
            r.repr == if self.repr >= rhs.repr {
                self.repr
            } else {
                rhs.repr
            },
            r == self.spec_maximum(rhs),
    {
        if self.repr >= rhs.repr {
            self
        } else {
            rhs
        }
    }

    /// Negation.
    pub fn neg(self) -> (r: Unit)
        ensures
            r.repr as int == spec_neg(self.repr as int),
    {
        if self.repr == i64::MAX {
            Unit { repr: i64::MIN }
        } else if self.repr == i64::MIN {
            Unit { repr: i64::MAX }
        } else {
            Unit { repr: -self.repr }
        }
    }

    /// Magnitude; the magnitude of either infinity is positive infinity.
    pub fn abs(self) -> (r: Unit)
        ensures
            r.repr as int == clamp_repr(abs_repr(self.repr as int)),
    {
        if self.repr == i64::MIN {
            Unit { repr: i64::MAX }
        } else if self.repr < 0 {
            Unit { repr: -self.repr }
        } else {
            self
        }
    }

    /// Saturating addition; see `spec_add`.
    pub fn add(self, rhs: Unit) -> (r: Unit)
        ensures
            r.repr as int == spec_add(self.repr as int, rhs.repr as int),
            r == self.spec_plus(rhs),
    {
        if self.repr == i64::MAX || rhs.repr == i64::MAX {
            Unit { repr: i64::MAX }
        } else if self.repr == i64::MIN || rhs.repr == i64::MIN {
            Unit { repr: i64::MIN }
        } else {
            let wide: i128 = self.repr as i128 + rhs.repr as i128;
            Unit { repr: clamp_i128(wide) }
        }
    }

    /// Saturating subtraction; see `spec_sub`.
    pub fn sub(self, rhs: Unit) -> (r: Unit)
        ensures
            r.repr as int == spec_sub(self.repr as int, rhs.repr as int),
            r == self.spec_minus(rhs),
    {
        self.add(rhs.neg())
    }

    /// Value-level spec of saturating addition.
    pub open spec fn spec_plus(self, rhs: Unit) -> Unit {
        Unit { repr: spec_add(self.repr as int, rhs.repr as int) as i64 }
    }

    /// Value-level spec of saturating subtraction.
    pub open spec fn spec_minus(self, rhs: Unit) -> Unit {
        Unit { repr: spec_sub(self.repr as int, rhs.repr as int) as i64 }
    }

    /// Value-level spec of fixed-point multiplication.
    pub open spec fn spec_times(self, rhs: Unit) -> Unit {
        Unit { repr: spec_mul(self.repr as int, rhs.repr as int) as i64 }
    }

    /// Value-level spec of fixed-point division.
    pub open spec fn spec_divided_by(self, rhs: Unit) -> Unit {
        Unit { repr: spec_div(self.repr as int, rhs.repr as int) as i64 }
    }

    /// Value-level spec of the minimum.
    pub open spec fn spec_minimum(self, rhs: Unit) -> Unit {
        Unit { repr: min_repr(self.repr as int, rhs.repr as int) as i64 }
    }

    /// Value-level spec of the maximum.
    pub open spec fn spec_maximum(self, rhs: Unit) -> Unit {
        Unit { repr: max_repr(self.repr as int, rhs.repr as int) as i64 }
    }

    /// The minimum with an optional bound: no bound leaves the value as is.
    pub open spec fn spec_maybe_min(self, rhs: Option<Unit>) -> Unit {
        match rhs {
            Some(m) => self.spec_minimum(m),
            None => self,
        }
    }

    /// The maximum with an optional bound: no bound leaves the value as is.
    pub open spec fn spec_maybe_max(self, rhs: Option<Unit>) -> Unit {
        match rhs {
            Some(m) => self.spec_maximum(m),
            None => self,
        }
    }

    /// Clamping between optional bounds, the minimum bound winning over the
    /// maximum bound when they cross.
    pub open spec fn spec_maybe_clamp(self, min: Option<Unit>, max: Option<Unit>) -> Unit {
        self.spec_maybe_min(max).spec_maybe_max(min)
    }

    /// The minimum with an optional bound.
    pub fn maybe_min(self, rhs: Option<Unit>) -> (r: Unit)
        ensures
            r == self.spec_maybe_min(rhs),
    {
        match rhs {
            Some(m) => self.min(m),
            None => self,
        }
    }

    /// The maximum with an optional bound.
    pub fn maybe_max(self, rhs: Option<Unit>) -> (r: Unit)
        ensures
            r == self.spec_maybe_max(rhs),
    {
        match rhs {
            Some(m) => self.max(m),
            None => self,
        }
    }

    /// Clamp between optional bounds, the minimum bound winning over the
    /// maximum bound when they cross.
    pub fn maybe_clamp(self, min: Option<Unit>, max: Option<Unit>) -> (r: Unit)
        ensures
            r == self.spec_maybe_clamp(min, max),
    {
        self.maybe_min(max).maybe_max(min)
    }

    /// Fixed-point multiplication; see `spec_mul`. Resolving a percentage
    /// against a context size multiplies the context by the fraction.
    pub fn mul(self, rhs: Unit) -> (r: Unit)
        ensures
            r.repr as int == spec_mul(self.repr as int, rhs.repr as int),
            r == self.spec_times(rhs),
    {
        if self.repr == 0 || rhs.repr == 0 {
            Unit { repr: 0 }
        } else if self.repr == i64::MAX || self.repr == i64::MIN || rhs.repr == i64::MAX
            || rhs.repr == i64::MIN {
            if (self.repr > 0) == (rhs.repr > 0) {
                Unit { repr: i64::MAX }
            } else {
                Unit { repr: i64::MIN }
            }
        } else {
            let ma: i64 = if self.repr < 0 {
                -self.repr
            } else {
                self.repr
            };
            let mb: i64 = if rhs.repr < 0 {
                -rhs.repr
            } else {
                rhs.repr
            };
            let pa: u128 = ma as u128;
            let pb: u128 = mb as u128;
            assert(pa * pb <= 0x7fffffffffffffffu128 * 0x7fffffffffffffffu128) by (nonlinear_arith)
                requires
                    pa <= 0x7fffffffffffffffu128,
                    pb <= 0x7fffffffffffffffu128,
            ;
            let mag: u128 = (pa * pb) / (SCALE as u128);
            let negative = (self.repr > 0) != (rhs.repr > 0);
            Unit { repr: signed_clamp(mag, negative) }
        }
    }

    /// Fixed-point division; see `spec_div`. The aspect-ratio rules and the
    /// flexible-track unit computation divide one measurement by another.
    pub fn div(self, rhs: Unit) -> (r: Unit)
        ensures
            r.repr as int == spec_div(self.repr as int, rhs.repr as int),
            r == self.spec_divided_by(rhs),
    {
        if rhs.repr == 0 {
            if self.repr == 0 {
                Unit { repr: 0 }
            } else if self.repr > 0 {
                Unit { repr: i64::MAX }
            } else {
                Unit { repr: i64::MIN }
            }
        } else if self.repr == i64::MAX || self.repr == i64::MIN {
            if (self.repr > 0) == (rhs.repr > 0) {
                Unit { repr: i64::MAX }
            } else {
                Unit { repr: i64::MIN }
            }
        } else if rhs.repr == i64::MAX || rhs.repr == i64::MIN {
            Unit { repr: 0 }
        } else if self.repr == 0 {
            Unit { repr: 0 }
        } else {
            let ma: i64 = if self.repr < 0 {
                -self.repr
            } else {
                self.repr
            };
            let mb: i64 = if rhs.repr < 0 {
                -rhs.repr
            } else {
                rhs.repr
            };
            let pa: u128 = ma as u128;
            let pb: u128 = mb as u128;
            let mag: u128 = (pa * (SCALE as u128)) / pb;
            let negative = (self.repr > 0) != (rhs.repr > 0);
            Unit { repr: signed_clamp(mag, negative) }
        }
    }
}

/// Clamp a nonnegative wide magnitude into the representable range and give
/// it the requested sign.
fn signed_clamp(mag: u128, negative: bool) -> (r: i64)
    ensures
        r as int == if negative {
            clamp_repr(-(mag as int))
        } else {
            clamp_repr(mag as int)
        },
{
    if negative {
        if mag >= 9223372036854775808u128 {
            i64::MIN
        } else {
            -(mag as i64)
        }
    } else {
        if mag >= 9223372036854775807u128 {
            i64::MAX
        } else {
            mag as i64
        }
    }
}

} // verus!
