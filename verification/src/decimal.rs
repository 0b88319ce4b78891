//! The decimal arithmetic that the ledger takes from `rust_decimal`.
//!
//! Nothing here is proved: each function states what the crate's `Decimal`
//! does, and the rest of the library builds on these statements.

use crate::amount::Amount;
use rust_decimal::Decimal;
use vstd::prelude::*;

verus! {

/// What `Decimal::checked_add` returns for `a_mantissa / 10^a_scale` and
/// `b_mantissa / 10^b_scale`: the mantissa and scale of the sum, which may
/// have been rounded to fit, or `None` on overflow.
pub uninterp spec fn decimal_sum(a_mantissa: i128, a_scale: u32, b_mantissa: i128, b_scale: u32)
    -> Option<(i128, u32)>;

/// What `Decimal::checked_sub` returns for `a_mantissa / 10^a_scale` and
/// `b_mantissa / 10^b_scale`: the mantissa and scale of the difference, which
/// may have been rounded to fit, or `None` on overflow.
pub uninterp spec fn decimal_difference(
    a_mantissa: i128,
    a_scale: u32,
    b_mantissa: i128,
    b_scale: u32,
) -> Option<(i128, u32)>;

/// An optional amount as an optional pair of mantissa and scale.
pub open spec fn parts(r: Option<Amount>) -> Option<(i128, u32)> {
    match r {
        Some(a) => Some((a.mantissa, a.scale)),
        None => None,
    }
}

/// `Decimal::checked_add` on two amounts.
///
/// Claims that the result is the one named by `decimal_sum`, and that every
/// `Decimal` has a mantissa of at most 96 bits and a scale of at most 28.
/// Whether the sum is exact is not claimed.
#[verifier::external_body]
pub(crate) fn checked_add(a: Amount, b: Amount) -> (r: Option<Amount>)
    requires
        a.wf(),
        b.wf(),
    ensures
        parts(r) == decimal_sum(a.mantissa, a.scale, b.mantissa, b.scale),
        r matches Some(s) ==> s.wf(),
{
    let x = Decimal::from_i128_with_scale(a.mantissa, a.scale);
    let y = Decimal::from_i128_with_scale(b.mantissa, b.scale);
    match x.checked_add(y) {
        Some(d) => Some(Amount { mantissa: d.mantissa(), scale: d.scale() }),
        None => None,
    }
}

/// `Decimal::checked_sub` on two amounts.
///
/// Claims that the result is the one named by `decimal_difference`, and that
/// every `Decimal` has a mantissa of at most 96 bits and a scale of at most
/// 28. Whether the difference is exact is not claimed.
#[verifier::external_body]
pub(crate) fn checked_sub(a: Amount, b: Amount) -> (r: Option<Amount>)
    requires
        a.wf(),
        b.wf(),
    ensures
        parts(r) == decimal_difference(a.mantissa, a.scale, b.mantissa, b.scale),
        r matches Some(s) ==> s.wf(),
{
    let x = Decimal::from_i128_with_scale(a.mantissa, a.scale);
    let y = Decimal::from_i128_with_scale(b.mantissa, b.scale);
    match x.checked_sub(y) {
        Some(d) => Some(Amount { mantissa: d.mantissa(), scale: d.scale() }),
        None => None,
    }
}

/// `>=` on two `Decimal`s.
///
/// Claims that `Decimal` orders by the number denoted, whatever the scales.
#[verifier::external_body]
pub(crate) fn at_least(a: Amount, b: Amount) -> (r: bool)
    requires
        a.wf(),
        b.wf(),
    ensures
        r == (a.units() >= b.units()),
{
    let x = Decimal::from_i128_with_scale(a.mantissa, a.scale);
    let y = Decimal::from_i128_with_scale(b.mantissa, b.scale);
    x >= y
}

} // verus!
