//! Fixed-point numbers with nine decimal places.
//!
//! Every economic quantity of the model (money, prices, rates, ratios) is a
//! [`Fixed`]: a signed count of billionths. All operations are total on
//! their stated domain and saturate at [`LIMIT`], so that no sequence of
//! operations can overflow or fail. Products and quotients are rounded
//! towards zero.

use vstd::prelude::*;

verus! {

/// Number of raw units that make up the value one.
pub const SCALE: i128 = 1_000_000_000;

/// The largest raw value that an operation yields; the smallest is its
/// negative. It stands for the value ten to the power of twenty.
pub const LIMIT: i128 = 100_000_000_000_000_000_000_000_000_000;

/// Number of distinct values a uniform draw can take (53 random bits).
pub const DRAW_RANGE: u64 = 0x20_0000_0000_0000;

/// The raw value within the limits that is nearest to `v`.
pub open spec fn clamp(v: int) -> int {
    if v < -LIMIT {
        -LIMIT as int
    } else if v > LIMIT {
        LIMIT as int
    } else {
        v
    }
}

/// The quotient of `n` by `d`, rounded towards zero (`d` is not zero).
pub open spec fn trunc_div(n: int, d: int) -> int {
    if d > 0 {
        if n >= 0 {
            n / d
        } else {
            -((-n) / d)
        }
    } else {
        if n >= 0 {
            -(n / (-d))
        } else {
            (-n) / (-d)
        }
    }
}

/// A fixed-point number: `raw` billionths.
#[derive(Clone, Copy, Debug, PartialEq, Eq, Structural)]
pub struct Fixed {
    pub raw: i128,
}

/// Brings an intermediate result within the limits.
fn saturate(v: i128) -> (r: i128)
    ensures
        r == clamp(v as int),
{
    if v < -LIMIT {
        -LIMIT
    } else if v > LIMIT {
        LIMIT
    } else {
        v
    }
}

/// The sign of a product, and its size where one factor is known to be
/// large.
proof fn lemma_product_sign(a: int, b: int)
    ensures
        a > 0 && b > 0 ==> a * b > 0,
        a < 0 && b < 0 ==> a * b > 0,
        a > 0 && b < 0 ==> a * b < 0,
        a < 0 && b > 0 ==> a * b < 0,
        a == 0 || b == 0 ==> a * b == 0,
{
    assert(a > 0 && b > 0 ==> a * b > 0) by (nonlinear_arith);
    assert(a < 0 && b < 0 ==> a * b > 0) by (nonlinear_arith);
    assert(a > 0 && b < 0 ==> a * b < 0) by (nonlinear_arith);
    assert(a < 0 && b > 0 ==> a * b < 0) by (nonlinear_arith);
    assert(a == 0 || b == 0 ==> a * b == 0) by (nonlinear_arith);
}

/// A quotient is no larger in size than its dividend.
proof fn lemma_quotient_bound(n: int, d: int)
    requires
        n >= 0,
        d > 0,
    ensures
        0 <= n / d <= n,
{
    assert(0 <= n / d <= n) by (nonlinear_arith)
        requires
            n >= 0,
            d > 0,
    ;
}

/// A part of a whole, as a fraction, lies between zero and one.
pub proof fn lemma_ratio_in_unit_interval(num: u64, den: u64)
    requires
        num <= den,
        den > 0,
    ensures
        0 <= Fixed::ratio(num, den).raw <= SCALE,
{
    let n: int = SCALE * num;
    let d: int = den as int;
    assert(0 <= n / d <= 1_000_000_000) by (nonlinear_arith)
        requires
            n == 1_000_000_000 * num,
            0 <= num <= d,
            d > 0,
    ;
}

/// Every draw of the unit interval lies below one and not above it, at or
/// above zero and not below it: a chance of one always comes true, a chance
/// of zero never.
pub proof fn lemma_certain_draws(draw: u64)
    requires
        draw < DRAW_RANGE,
    ensures
        Fixed::one().exceeds_draw(draw),
        !Fixed::one().below_draw(draw),
        !Fixed::zero().exceeds_draw(draw),
{
    assert(SCALE * draw < SCALE * DRAW_RANGE) by (nonlinear_arith)
        requires
            draw < DRAW_RANGE,
            SCALE > 0,
    ;
    assert(SCALE * draw >= 0) by (nonlinear_arith)
        requires
            draw >= 0,
            SCALE > 0,
    ;
}

impl Fixed {
    /// The value zero.
    pub open spec fn spec_zero() -> Fixed {
        Fixed { raw: 0 }
    }

    /// The value zero.
    #[verifier::when_used_as_spec(spec_zero)]
    pub fn zero() -> (r: Fixed)
        ensures
            r == Fixed::spec_zero(),
    {
        Fixed { raw: 0 }
    }

    /// The value one.
    pub open spec fn spec_one() -> Fixed {
        Fixed { raw: SCALE }
    }

    /// The value one.
    #[verifier::when_used_as_spec(spec_one)]
    pub fn one() -> (r: Fixed)
        ensures
            r == Fixed::spec_one(),
    {
        Fixed { raw: SCALE }
    }

    /// The smallest positive value; divisors are floored at it.
    pub open spec fn spec_epsilon() -> Fixed {
        Fixed { raw: 1 }
    }

    /// The smallest positive value.
    #[verifier::when_used_as_spec(spec_epsilon)]
    pub fn epsilon() -> (r: Fixed)
        ensures
            r == Fixed::spec_epsilon(),
    {
        Fixed { raw: 1 }
    }

    /// The least value of all, below every limit; the identity of `max`.
    pub open spec fn spec_lowest() -> Fixed {
        Fixed { raw: i128::MIN }
    }

    /// The least value of all.
    #[verifier::when_used_as_spec(spec_lowest)]
    pub fn lowest() -> (r: Fixed)
        ensures
            r == Fixed::spec_lowest(),
    {
        Fixed { raw: i128::MIN }
    }

    /// The value `nanos` billionths.
    pub open spec fn spec_from_nanos(nanos: i128) -> Fixed {
        Fixed { raw: nanos }
    }

    /// The value `nanos` billionths.
    #[verifier::when_used_as_spec(spec_from_nanos)]
    pub fn from_nanos(nanos: i128) -> (r: Fixed)
        ensures
            r == Fixed::spec_from_nanos(nanos),
    {
        Fixed { raw: nanos }
    }

    /// The value `micros` millionths.
    pub open spec fn spec_from_micros(micros: i64) -> Fixed {
        Fixed { raw: (micros * 1000) as i128 }
    }

    /// The value `micros` millionths.
    #[verifier::when_used_as_spec(spec_from_micros)]
    pub fn from_micros(micros: i64) -> (r: Fixed)
        ensures
            r == Fixed::spec_from_micros(micros),
    {
        Fixed { raw: micros as i128 * 1000 }
    }

    /// The whole number `n`.
    pub open spec fn spec_from_int(n: i64) -> Fixed {
        Fixed { raw: (n * SCALE) as i128 }
    }

    /// The whole number `n`.
    #[verifier::when_used_as_spec(spec_from_int)]
    pub fn from_int(n: i64) -> (r: Fixed)
        ensures
            r == Fixed::spec_from_int(n),
    {
        Fixed { raw: n as i128 * SCALE }
    }

    /// The fraction `num / den` of two counts.
    pub open spec fn spec_ratio(num: u64, den: u64) -> Fixed {
        Fixed { raw: ((SCALE * num) / (den as int)) as i128 }
    }

    /// The fraction `num / den` of two counts.
    #[verifier::when_used_as_spec(spec_ratio)]
    pub fn ratio(num: u64, den: u64) -> (r: Fixed)
        requires
            den > 0,
        ensures
            r == Fixed::spec_ratio(num, den),
    {
        let n: i128 = SCALE * num as i128;
        proof {
            lemma_quotient_bound(n as int, den as int);
        }
        Fixed { raw: n / den as i128 }
    }

    /// Saturating sum.
    pub open spec fn spec_plus(self, other: Fixed) -> Fixed {
        Fixed { raw: clamp(self.raw + other.raw) as i128 }
    }

    /// Saturating sum.
    #[verifier::when_used_as_spec(spec_plus)]
    pub fn plus(self, other: Fixed) -> (r: Fixed)
        ensures
            r == self.spec_plus(other),
    {
        match self.raw.checked_add(other.raw) {
            Some(sum) => Fixed { raw: saturate(sum) },
            None => if self.raw > 0 {
                Fixed { raw: LIMIT }
            } else {
                Fixed { raw: -LIMIT }
            },
        }
    }

    /// Saturating difference.
    pub open spec fn spec_minus(self, other: Fixed) -> Fixed {
        Fixed { raw: clamp(self.raw - other.raw) as i128 }
    }

    /// Saturating difference.
    #[verifier::when_used_as_spec(spec_minus)]
    pub fn minus(self, other: Fixed) -> (r: Fixed)
        ensures
            r == self.spec_minus(other),
    {
        match self.raw.checked_sub(other.raw) {
            Some(difference) => Fixed { raw: saturate(difference) },
            None => if self.raw >= 0 {
                Fixed { raw: LIMIT }
            } else {
                Fixed { raw: -LIMIT }
            },
        }
    }

    /// Saturating negation.
    pub open spec fn spec_neg(self) -> Fixed {
        Fixed { raw: clamp(-self.raw) as i128 }
    }

    /// Saturating negation.
    #[verifier::when_used_as_spec(spec_neg)]
    pub fn neg(self) -> (r: Fixed)
        ensures
            r == self.spec_neg(),
    {
        if self.raw == i128::MIN {
            Fixed { raw: LIMIT }
        } else {
            Fixed { raw: saturate(-self.raw) }
        }
    }

    /// Saturating absolute value.
    pub open spec fn spec_abs(self) -> Fixed {
        if self.raw >= 0 {
            self
        } else {
            self.spec_neg()
        }
    }

    /// Saturating absolute value.
    #[verifier::when_used_as_spec(spec_abs)]
    pub fn abs(self) -> (r: Fixed)
        ensures
            r == self.spec_abs(),
    {
        if self.raw >= 0 {
            self
        } else {
            self.neg()
        }
    }

    /// The larger of two values.
    pub open spec fn spec_max(self, other: Fixed) -> Fixed {
        if self.raw >= other.raw {
            self
        } else {
            other
        }
    }

    /// The larger of two values.
    #[verifier::when_used_as_spec(spec_max)]
    pub fn max(self, other: Fixed) -> (r: Fixed)
        ensures
            r == self.spec_max(other),
    {
        if self.raw >= other.raw {
            self
        } else {
            other
        }
    }

    /// The smaller of two values.
    pub open spec fn spec_min(self, other: Fixed) -> Fixed {
        if self.raw <= other.raw {
            self
        } else {
            other
        }
    }

    /// The smaller of two values.
    #[verifier::when_used_as_spec(spec_min)]
    pub fn min(self, other: Fixed) -> (r: Fixed)
        ensures
            r == self.spec_min(other),
    {
        if self.raw <= other.raw {
            self
        } else {
            other
        }
    }

    /// Saturating product, rounded towards zero.
    pub open spec fn spec_times(self, other: Fixed) -> Fixed {
        Fixed { raw: clamp(trunc_div(self.raw * other.raw, SCALE as int)) as i128 }
    }

    /// Saturating product, rounded towards zero.
    #[verifier::when_used_as_spec(spec_times)]
    pub fn times(self, other: Fixed) -> (r: Fixed)
        ensures
            r == self.spec_times(other),
    {
        proof {
            lemma_product_sign(self.raw as int, other.raw as int);
        }
        match self.raw.checked_mul(other.raw) {
            Some(product) => Fixed { raw: saturate(product / SCALE) },
            None => if (self.raw > 0) == (other.raw > 0) {
                Fixed { raw: LIMIT }
            } else {
                Fixed { raw: -LIMIT }
            },
        }
    }

    /// Saturating quotient, rounded towards zero. A dividend beyond the
    /// limits counts as the limit.
    pub open spec fn spec_over(self, divisor: Fixed) -> Fixed {
        Fixed {
            raw: clamp(trunc_div(clamp(self.raw as int) * SCALE, divisor.raw as int)) as i128,
        }
    }

    /// Saturating quotient, rounded towards zero.
    #[verifier::when_used_as_spec(spec_over)]
    pub fn over(self, divisor: Fixed) -> (r: Fixed)
        requires
            divisor.raw != 0,
        ensures
            r == self.spec_over(divisor),
    {
        let n: i128 = saturate(self.raw) * SCALE;
        let d: i128 = divisor.raw;
        let q: i128 = if d > 0 {
            n / d
        } else if d == i128::MIN {
            0
        } else {
            proof {
                lemma_quotient_bound(
                    if n >= 0 {
                        n as int
                    } else {
                        -n
                    },
                    -d,
                );
            }
            -(n / (-d))
        };
        Fixed { raw: saturate(q) }
    }

    /// Saturating product with a count.
    pub open spec fn spec_times_count(self, n: u64) -> Fixed {
        Fixed { raw: clamp(self.raw * n) as i128 }
    }

    /// Saturating product with a count.
    #[verifier::when_used_as_spec(spec_times_count)]
    pub fn times_count(self, n: u64) -> (r: Fixed)
        ensures
            r == self.spec_times_count(n),
    {
        proof {
            lemma_product_sign(self.raw as int, n as int);
        }
        match self.raw.checked_mul(n as i128) {
            Some(product) => Fixed { raw: saturate(product) },
            None => if self.raw > 0 {
                Fixed { raw: LIMIT }
            } else {
                Fixed { raw: -LIMIT }
            },
        }
    }

    /// Quotient by a positive count, rounded towards zero.
    pub open spec fn spec_over_count(self, n: u64) -> Fixed {
        Fixed { raw: trunc_div(self.raw as int, n as int) as i128 }
    }

    /// Quotient by a positive count, rounded towards zero.
    #[verifier::when_used_as_spec(spec_over_count)]
    pub fn over_count(self, n: u64) -> (r: Fixed)
        requires
            n > 0,
        ensures
            r == self.spec_over_count(n),
    {
        proof {
            lemma_quotient_bound(
                if self.raw >= 0 {
                    self.raw as int
                } else {
                    -self.raw
                },
                n as int,
            );
        }
        Fixed { raw: self.raw / n as i128 }
    }

    /// The whole part as a count: negative values give zero, large ones the
    /// largest count.
    pub open spec fn spec_to_count(self) -> u32 {
        if self.raw < 0 {
            0
        } else if self.raw / SCALE > u32::MAX {
            u32::MAX
        } else {
            (self.raw / SCALE) as u32
        }
    }

    /// The whole part as a count.
    #[verifier::when_used_as_spec(spec_to_count)]
    pub fn to_count(self) -> (r: u32)
        ensures
            r == self.spec_to_count(),
    {
        if self.raw < 0 {
            0
        } else {
            let q: i128 = self.raw / SCALE;
            if q > u32::MAX as i128 {
                u32::MAX
            } else {
                q as u32
            }
        }
    }

    /// Whether the uniform draw `draw / DRAW_RANGE` lies strictly below `self`.
    pub open spec fn spec_exceeds_draw(self, draw: u64) -> bool {
        SCALE * draw < self.raw * DRAW_RANGE
    }

    /// Tells whether a uniform draw lies strictly below this value.
    #[verifier::when_used_as_spec(spec_exceeds_draw)]
    pub fn exceeds_draw(self, draw: u64) -> (r: bool)
        ensures
            r == self.spec_exceeds_draw(draw),
    {
        proof {
            lemma_product_sign(self.raw as int, DRAW_RANGE as int);
        }
        let scaled: i128 = SCALE * draw as i128;
        match self.raw.checked_mul(DRAW_RANGE as i128) {
            Some(bound) => scaled < bound,
            None => self.raw > 0,
        }
    }

    /// Whether the uniform draw `draw / DRAW_RANGE` lies strictly above `self`.
    pub open spec fn spec_below_draw(self, draw: u64) -> bool {
        SCALE * draw > self.raw * DRAW_RANGE
    }

    /// Tells whether a uniform draw lies strictly above this value.
    #[verifier::when_used_as_spec(spec_below_draw)]
    pub fn below_draw(self, draw: u64) -> (r: bool)
        ensures
            r == self.spec_below_draw(draw),
    {
        proof {
            lemma_product_sign(self.raw as int, DRAW_RANGE as int);
        }
        let scaled: i128 = SCALE * draw as i128;
        match self.raw.checked_mul(DRAW_RANGE as i128) {
            Some(bound) => scaled > bound,
            None => self.raw < 0,
        }
    }
}

} // verus!
