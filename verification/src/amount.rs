//! Decimal amounts: a signed 96-bit mantissa and a count of fractional digits.

use crate::decimal::{at_least, checked_add, checked_sub, decimal_difference, decimal_sum};
use vstd::prelude::*;

verus! {

/// Largest magnitude of a mantissa: 2^96 - 1.
pub const MANTISSA_MAX: i128 = 79_228_162_514_264_337_593_543_950_335i128;

/// Largest number of fractional digits.
pub const SCALE_MAX: u32 = 28u32;

/// 10^28, the number of units in one whole.
pub const UNITS_PER_ONE: i128 = 10_000_000_000_000_000_000_000_000_000i128;

/// Ten to the power `n`.
pub open spec fn pow10(n: nat) -> int
    decreases n,
{
    if n == 0 {
        1
    } else {
        10 * pow10((n - 1) as nat)
    }
}

/// A decimal number `mantissa / 10^scale`.
///
/// Two amounts with different scales may denote the same number; `units`
/// gives the number itself, counted in steps of 10^-28.
#[derive(Clone, Copy, Debug, PartialEq, Eq, Structural)]
pub struct Amount {
    pub mantissa: i128,
    pub scale: u32,
}

impl Amount {
    /// The mantissa fits in 96 bits and the scale is at most 28.
    pub open spec fn wf(self) -> bool {
        &&& -MANTISSA_MAX <= self.mantissa <= MANTISSA_MAX
        &&& self.scale <= SCALE_MAX
    }

    /// The number denoted, in units of 10^-28.
    pub open spec fn units(self) -> int {
        self.mantissa * pow10((SCALE_MAX - self.scale) as nat)
    }

    /// The amount `mantissa / 10^scale`, if it is representable.
    pub fn new(mantissa: i128, scale: u32) -> (r: Option<Amount>)
        ensures
            r == if (Amount { mantissa, scale }).wf() {
                Some(Amount { mantissa, scale })
            } else {
                None
            },
    {
        if scale <= SCALE_MAX && -MANTISSA_MAX <= mantissa && mantissa <= MANTISSA_MAX {
            Some(Amount { mantissa, scale })
        } else {
            None
        }
    }

    /// Zero with one fractional digit, the balance of a fresh account.
    pub fn zero() -> (r: Amount)
        ensures
            r == (Amount { mantissa: 0, scale: 1 }),
            r.wf(),
            r.units() == 0,
    {
        Amount { mantissa: 0, scale: 1 }
    }
}

/// Powers of ten multiply as their exponents add.
pub proof fn lemma_pow10_adds(a: nat, b: nat)
    ensures
        pow10(a + b) == pow10(a) * pow10(b),
    decreases a,
{
    if a == 0 {
        assert(pow10(0) == 1);
        assert(pow10(0) * pow10(b) == pow10(b)) by (nonlinear_arith)
            requires
                pow10(0) == 1,
        ;
    } else {
        lemma_pow10_adds((a - 1) as nat, b);
        assert(pow10(a + b) == 10 * pow10((a - 1 + b) as nat));
        assert(10 * (pow10((a - 1) as nat) * pow10(b)) == (10 * pow10((a - 1) as nat)) * pow10(b))
            by (nonlinear_arith);
    }
}

/// Powers of ten are positive and grow with the exponent.
pub proof fn lemma_pow10_monotonic(a: nat, b: nat)
    requires
        a <= b,
    ensures
        1 <= pow10(a) <= pow10(b),
    decreases b,
{
    if b == 0 {
    } else if a == b {
        lemma_pow10_monotonic((a - 1) as nat, (b - 1) as nat);
    } else {
        lemma_pow10_monotonic(a, (b - 1) as nat);
    }
}

/// The value of 10^28.
pub proof fn lemma_pow10_28()
    ensures
        pow10(28) == UNITS_PER_ONE,
{
    reveal_with_fuel(pow10, 15);
    assert(pow10(14) == 100_000_000_000_000int);
    assert(pow10(28) == 100_000_000_000_000int * pow10(14)) by {
        lemma_pow10_adds(14, 14);
    }
}

/// Ten to the power `k`, for `k` up to 28.
fn power_of_ten(k: u32) -> (r: i128)
    requires
        k <= SCALE_MAX,
    ensures
        r == pow10(k as nat),
        1 <= r <= UNITS_PER_ONE,
{
    let mut r: i128 = 1;
    let mut i: u32 = 0;
    proof {
        lemma_pow10_28();
        lemma_pow10_monotonic(0, 28);
    }
    while i < k
        invariant
            i <= k <= SCALE_MAX,
            r == pow10(i as nat),
            pow10(28) == UNITS_PER_ONE,
        decreases k - i,
    {
        proof {
            lemma_pow10_monotonic((i + 1) as nat, 28);
        }
        r = r * 10;
        i = i + 1;
    }
    proof {
        lemma_pow10_monotonic(k as nat, 28);
    }
    r
}

/// The two digits of an amount's units in base 10^28, both carrying its sign.
fn digits(a: Amount) -> (r: (i128, i128))
    requires
        a.wf(),
    ensures
        a.units() == r.0 * UNITS_PER_ONE + r.1,
        -MANTISSA_MAX <= r.0 <= MANTISSA_MAX,
        -UNITS_PER_ONE < r.1 < UNITS_PER_ONE,
{
    let p: i128 = power_of_ten(a.scale);
    let k: i128 = power_of_ten(SCALE_MAX - a.scale);
    let negative: bool = a.mantissa < 0;
    let mag: i128 = if negative {
        -a.mantissa
    } else {
        a.mantissa
    };
    let q: i128 = mag / p;
    let rem: i128 = mag % p;
    proof {
        vstd::arithmetic::div_mod::lemma_fundamental_div_mod(mag as int, p as int);
        vstd::arithmetic::div_mod::lemma_mod_pos_bound(mag as int, p as int);
        lemma_pow10_adds(a.scale as nat, (SCALE_MAX - a.scale) as nat);
        lemma_pow10_28();
        assert(p * k == UNITS_PER_ONE);
        assert(0 <= q <= mag) by (nonlinear_arith)
            requires
                mag == p * q + rem,
                0 <= rem < p,
                0 <= mag,
                1 <= p,
        ;
        assert(0 <= rem * k < UNITS_PER_ONE) by (nonlinear_arith)
            requires
                0 <= rem < p,
                1 <= k,
                p * k == UNITS_PER_ONE,
        ;
        assert(mag * k == q * UNITS_PER_ONE + rem * k) by (nonlinear_arith)
            requires
                mag == p * q + rem,
                p * k == UNITS_PER_ONE,
        ;
    }
    let low: i128 = rem * k;
    if negative {
        proof {
            assert(a.mantissa * k == -(mag * k)) by (nonlinear_arith)
                requires
                    mag == -a.mantissa,
            ;
            assert((-q) * UNITS_PER_ONE == -(q * UNITS_PER_ONE)) by (nonlinear_arith);
        }
        (-q, -low)
    } else {
        (q, low)
    }
}

impl Amount {
    /// Whether `sum` denotes exactly the number `self + other`.
    pub fn is_sum_of(&self, other: &Amount, sum: &Amount) -> (r: bool)
        requires
            self.wf(),
            other.wf(),
            sum.wf(),
        ensures
            r == (sum.units() == self.units() + other.units()),
    {
        let (qa, la) = digits(*self);
        let (qb, lb) = digits(*other);
        let (qs, ls) = digits(*sum);
        let high: i128 = qa + qb - qs;
        let low: i128 = ls - la - lb;
        proof {
            assert(sum.units() - self.units() - other.units() == low - high * UNITS_PER_ONE)
                by (nonlinear_arith)
                requires
                    sum.units() == qs * UNITS_PER_ONE + ls,
                    self.units() == qa * UNITS_PER_ONE + la,
                    other.units() == qb * UNITS_PER_ONE + lb,
                    high == qa + qb - qs,
                    low == ls - la - lb,
            ;
        }
        if high < -2 || high > 2 {
            proof {
                assert(high * UNITS_PER_ONE != low) by (nonlinear_arith)
                    requires
                        high < -2 || high > 2,
                        -3 * UNITS_PER_ONE < low < 3 * UNITS_PER_ONE,
                        UNITS_PER_ONE > 0,
                ;
            }
            false
        } else {
            proof {
                assert(-2 * UNITS_PER_ONE <= high * UNITS_PER_ONE <= 2 * UNITS_PER_ONE)
                    by (nonlinear_arith)
                    requires
                        -2 <= high <= 2,
                        UNITS_PER_ONE > 0,
                ;
            }
            high * UNITS_PER_ONE == low
        }
    }
}

/// The sum that `rust_decimal` gives for `a + b`, where it is exact.
pub open spec fn exact_sum(a: Amount, b: Amount) -> Option<Amount> {
    match decimal_sum(a.mantissa, a.scale, b.mantissa, b.scale) {
        Some((mantissa, scale)) => {
            let s = Amount { mantissa, scale };
            if s.wf() && s.units() == a.units() + b.units() {
                Some(s)
            } else {
                None
            }
        },
        None => None,
    }
}

/// The difference that `rust_decimal` gives for `a - b`, where it is exact.
pub open spec fn exact_difference(a: Amount, b: Amount) -> Option<Amount> {
    match decimal_difference(a.mantissa, a.scale, b.mantissa, b.scale) {
        Some((mantissa, scale)) => {
            let d = Amount { mantissa, scale };
            if d.wf() && d.units() == a.units() - b.units() {
                Some(d)
            } else {
                None
            }
        },
        None => None,
    }
}

impl Amount {
    /// Keeps a computed sum only where it denotes exactly `self + other`.
    pub fn confirm_sum(&self, other: &Amount, computed: Option<Amount>) -> (r: Option<Amount>)
        requires
            self.wf(),
            other.wf(),
            computed matches Some(s) ==> s.wf(),
        ensures
            r == match computed {
                Some(s) => if s.units() == self.units() + other.units() {
                    Some(s)
                } else {
                    None
                },
                None => None,
            },
    {
        match computed {
            Some(s) => if self.is_sum_of(other, &s) {
                Some(s)
            } else {
                None
            },
            None => None,
        }
    }

    /// Keeps a computed difference only where it denotes exactly `self - other`.
    pub fn confirm_difference(&self, other: &Amount, computed: Option<Amount>) -> (r: Option<
        Amount,
    >)
        requires
            self.wf(),
            other.wf(),
            computed matches Some(d) ==> d.wf(),
        ensures
            r == match computed {
                Some(d) => if d.units() == self.units() - other.units() {
                    Some(d)
                } else {
                    None
                },
                None => None,
            },
    {
        match computed {
            Some(d) => if d.is_sum_of(other, self) {
                Some(d)
            } else {
                None
            },
            None => None,
        }
    }

    /// `self + other`, or `None` where the sum overflows or would be rounded.
    pub fn exact_add(&self, other: &Amount) -> (r: Option<Amount>)
        requires
            self.wf(),
            other.wf(),
        ensures
            r == exact_sum(*self, *other),
    {
        let computed = checked_add(*self, *other);
        self.confirm_sum(other, computed)
    }

    /// `self - other`, or `None` where the difference overflows or would be
    /// rounded.
    pub fn exact_sub(&self, other: &Amount) -> (r: Option<Amount>)
        requires
            self.wf(),
            other.wf(),
        ensures
            r == exact_difference(*self, *other),
    {
        let computed = checked_sub(*self, *other);
        self.confirm_difference(other, computed)
    }

    /// Whether `self` denotes a number at least as large as `other`.
    pub fn ge(&self, other: &Amount) -> (r: bool)
        requires
            self.wf(),
            other.wf(),
        ensures
            r == (self.units() >= other.units()),
    {
        at_least(*self, *other)
    }

    /// Whether `self` and `other` denote the same number, whatever their
    /// scales.
    pub fn same_number(&self, other: &Amount) -> (r: bool)
        requires
            self.wf(),
            other.wf(),
        ensures
            r == (self.units() == other.units()),
    {
        at_least(*self, *other) && at_least(*other, *self)
    }
}

} // verus!
