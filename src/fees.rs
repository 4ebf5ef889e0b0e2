//! Fee, collateral and penalty arithmetic, in basis points with division that
//! truncates toward zero. Every product is checked: a result that does not fit
//! in an `i128` is reported as absent.

use vstd::prelude::*;

verus! {

/// One whole in basis points.
pub const BASIS_POINTS: i128 = 10000;

/// Share of the collateral kept from a late borrower, in basis points.
pub const LATE_PENALTY_RATE: i128 = 1000;

/// Division by a positive divisor that truncates toward zero, as Rust's `/` does.
pub open spec fn trunc_div(a: int, d: int) -> int
    recommends
        d > 0,
{
    if a >= 0 {
        a / d
    } else {
        -((-a) / d)
    }
}

/// Whether an integer fits in an `i128`.
pub open spec fn fits_i128(x: int) -> bool {
    i128::MIN <= x <= i128::MAX
}

/// `value * rate / 10000`, truncated toward zero.
pub open spec fn bp_share(value: int, rate: int) -> int {
    trunc_div(value * rate, 10000)
}

/// The rental fee: `amount * rental_rate * duration / 10000`.
pub open spec fn rental_fee_of(amount: int, rental_rate: int, duration: int) -> int {
    trunc_div(amount * rental_rate * duration, 10000)
}

/// What a rental of `amount` tokens costs and locks up.
#[derive(Clone, Copy, Debug, PartialEq, Eq, Structural)]
pub struct RentalCharges {
    /// Fee owed to the lender.
    pub rental_fee: i128,
    /// Platform's cut, charged on top of the rental fee.
    pub platform_fee: i128,
    /// `rental_fee + platform_fee`.
    pub total_fee: i128,
    /// Collateral held in custody until the rental is resolved.
    pub collateral: i128,
    /// Everything the borrower pays in: `total_fee + collateral`.
    pub total_charge: i128,
}

/// Whether every intermediate value of a rental quote fits in an `i128`.
pub open spec fn charges_fit(
    amount: int,
    rental_rate: int,
    collateral_rate: int,
    duration: int,
    platform_fee_rate: int,
) -> bool {
    let fee = rental_fee_of(amount, rental_rate, duration);
    let platform = bp_share(fee, platform_fee_rate);
    let collateral = bp_share(amount, collateral_rate);
    &&& fits_i128(amount * rental_rate)
    &&& fits_i128(amount * rental_rate * duration)
    &&& fits_i128(fee * platform_fee_rate)
    &&& fits_i128(fee + platform)
    &&& fits_i128(amount * collateral_rate)
    &&& fits_i128(fee + platform + collateral)
}

/// The charges of a rental, as plain integers.
pub open spec fn charges_of(
    amount: int,
    rental_rate: int,
    collateral_rate: int,
    duration: int,
    platform_fee_rate: int,
) -> (int, int, int) {
    let fee = rental_fee_of(amount, rental_rate, duration);
    (fee, bp_share(fee, platform_fee_rate), bp_share(amount, collateral_rate))
}

impl RentalCharges {
    /// Whether these charges are those of the given terms.
    pub open spec fn are_for(
        self,
        amount: int,
        rental_rate: int,
        collateral_rate: int,
        duration: int,
        platform_fee_rate: int,
    ) -> bool {
        let (fee, platform, collateral) = charges_of(
            amount,
            rental_rate,
            collateral_rate,
            duration,
            platform_fee_rate,
        );
        &&& self.rental_fee == fee
        &&& self.platform_fee == platform
        &&& self.total_fee == fee + platform
        &&& self.collateral == collateral
        &&& self.total_charge == fee + platform + collateral
    }
}

/// Truncating division of an `i128` by `BASIS_POINTS`.
fn div_bp(a: i128) -> (r: i128)
    ensures
        r == trunc_div(a as int, 10000),
{
    a / BASIS_POINTS
}

/// `value * rate / 10000`, or `None` when the product does not fit.
pub fn bp_share_checked(value: i128, rate: i128) -> (r: Option<i128>)
    ensures
        r.is_some() <==> fits_i128(value * rate),
        r matches Some(x) ==> x == bp_share(value as int, rate as int),
{
    match value.checked_mul(rate) {
        Some(p) => Some(div_bp(p)),
        None => None,
    }
}

/// The charges of renting `amount` tokens for `duration` days, or `None` when
/// one of the intermediate values does not fit in an `i128`.
pub fn rental_charges(
    amount: i128,
    rental_rate: i128,
    collateral_rate: i128,
    duration: u64,
    platform_fee_rate: i128,
) -> (r: Option<RentalCharges>)
    ensures
        r.is_some() <==> charges_fit(
            amount as int,
            rental_rate as int,
            collateral_rate as int,
            duration as int,
            platform_fee_rate as int,
        ),
        r matches Some(c) ==> c.are_for(
            amount as int,
            rental_rate as int,
            collateral_rate as int,
            duration as int,
            platform_fee_rate as int,
        ),
{
    let per_day = match amount.checked_mul(rental_rate) {
        Some(x) => x,
        None => return None,
    };
    let gross = match per_day.checked_mul(duration as i128) {
        Some(x) => x,
        None => return None,
    };
    let rental_fee = div_bp(gross);
    let platform_fee = match bp_share_checked(rental_fee, platform_fee_rate) {
        Some(x) => x,
        None => return None,
    };
    let total_fee = match rental_fee.checked_add(platform_fee) {
        Some(x) => x,
        None => return None,
    };
    let collateral = match bp_share_checked(amount, collateral_rate) {
        Some(x) => x,
        None => return None,
    };
    let total_charge = match total_fee.checked_add(collateral) {
        Some(x) => x,
        None => return None,
    };
    Some(RentalCharges { rental_fee, platform_fee, total_fee, collateral, total_charge })
}

/// The late penalty kept from `collateral`: 10% of it, truncated.
pub open spec fn late_penalty_of(collateral: int) -> int {
    bp_share(collateral, 1000)
}

/// How the collateral of a late return is divided: `(refund, penalty)`, the
/// refund going back to the borrower and the penalty to the lender.
pub fn late_split(collateral: i128) -> (r: (i128, i128))
    requires
        0 <= collateral <= i128::MAX / 10000,
    ensures
        r.1 == late_penalty_of(collateral as int),
        r.0 == collateral - r.1,
        r.0 + r.1 == collateral,
        0 <= r.1 <= r.0,
{
    assert(0 <= collateral * 1000 <= i128::MAX) by (nonlinear_arith)
        requires
            0 <= collateral <= i128::MAX / 10000,
    ;
    let penalty = div_bp(collateral * LATE_PENALTY_RATE);
    assert(0 <= penalty <= collateral - penalty) by (nonlinear_arith)
        requires
            collateral >= 0,
            penalty == (collateral * 1000) / 10000,
    ;
    (collateral - penalty, penalty)
}

} // verus!
