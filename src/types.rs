//! Identities, errors and the records kept by the ledger.

use vstd::prelude::*;

verus! {

/// An account or a token, identified by a number.
#[derive(Clone, Copy, Debug, PartialEq, Eq, Structural)]
pub struct Address {
    pub id: u64,
}

impl Address {
    pub fn new(id: u64) -> (r: Address)
        ensures
            r.id == id,
    {
        Address { id }
    }
}

/// Why an operation was refused. A refused operation changes nothing.
#[derive(Clone, Copy, Debug, PartialEq, Eq, Structural)]
pub enum Error {
    NotInitialized,
    AlreadyInitialized,
    UnauthorizedAccess,
    InvalidAmount,
    InsufficientBalance,
    RentalNotFound,
    RentalExpired,
    RentalActive,
    InvalidDuration,
    InsufficientCollateral,
    UnauthorizedReturn,
}

/// One borrowing agreement derived from a listing.
#[derive(Clone, Copy, Debug, PartialEq, Eq, Structural)]
pub struct RentalAgreement {
    pub rental_id: u64,
    pub lender: Address,
    pub borrower: Address,
    pub token_address: Address,
    pub amount: i128,
    pub collateral_amount: i128,
    pub rental_fee: i128,
    pub start_time: u64,
    pub end_time: u64,
    pub is_active: bool,
    pub is_completed: bool,
}

/// An offer to rent out a fixed quantity of one token.
#[derive(Clone, Copy, Debug, PartialEq, Eq, Structural)]
pub struct TokenListing {
    pub listing_id: u64,
    pub lender: Address,
    pub token_address: Address,
    pub amount: i128,
    /// Fee per day, in basis points of the amount.
    pub rental_rate: i128,
    /// Shortest rental, in days.
    pub min_duration: u64,
    /// Longest rental, in days.
    pub max_duration: u64,
    /// Collateral required, in basis points of the amount.
    pub collateral_rate: i128,
    pub is_available: bool,
}

/// Platform parameters, set once.
#[derive(Clone, Copy, Debug, PartialEq, Eq, Structural)]
pub struct PlatformConfig {
    pub admin: Address,
    /// Platform fee, in basis points of the rental fee.
    pub platform_fee_rate: i128,
    /// Least collateral rate a listing may ask, in basis points.
    pub min_collateral_rate: i128,
    /// Longest rental a listing may allow, in days.
    pub max_rental_duration: u64,
}

/// A movement of `amount` of token `token` from `from` to `to`, to be made by
/// the token ledger. The operations of a call are made in order, and either
/// all of them are made or the call is undone.
#[derive(Clone, Copy, Debug, PartialEq, Eq, Structural)]
pub struct Transfer {
    pub token: Address,
    pub from: Address,
    pub to: Address,
    pub amount: i128,
}

} // verus!
