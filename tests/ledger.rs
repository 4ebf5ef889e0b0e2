use xrent::contract::XRentContract;
use xrent::fees::{bp_share_checked, late_split, rental_charges, RentalCharges};
use xrent::types::{Address, Error, Transfer};

const DAY: u64 = 86400;

fn custody() -> Address {
    Address::new(10)
}

fn admin() -> Address {
    Address::new(11)
}

fn lender() -> Address {
    Address::new(12)
}

fn borrower() -> Address {
    Address::new(13)
}

fn stranger() -> Address {
    Address::new(14)
}

fn token() -> Address {
    Address::new(15)
}

fn ready() -> XRentContract {
    let mut c = XRentContract::new(custody());
    c.initialize(admin()).unwrap();
    c
}

fn listed() -> (XRentContract, u64) {
    let mut c = ready();
    let (id, _) = c.create_listing(lender(), token(), 100, 500, 1, 30, 1500).unwrap();
    (c, id)
}

/// A listing rented for 7 days from time 1000.
fn rented() -> (XRentContract, u64, u64) {
    let (mut c, listing_id) = listed();
    let (rental_id, _) = c.rent_tokens(borrower(), listing_id, 7, 1000).unwrap();
    (c, listing_id, rental_id)
}

fn transfer(from: Address, to: Address, amount: i128) -> Transfer {
    Transfer { token: token(), from, to, amount }
}

#[test]
fn second_initialize_keeps_config() {
    let mut c = ready();
    assert_eq!(c.initialize(stranger()), Err(Error::AlreadyInitialized));
    let config = c.get_config().unwrap();
    assert_eq!(config.admin, admin());
    assert_eq!(config.platform_fee_rate, 250);
}

#[test]
fn config_absent_before_initialize() {
    let c = XRentContract::new(custody());
    assert_eq!(c.get_config(), None);
    assert_eq!(c.custody(), custody());
}

#[test]
fn refused_amount_uses_no_id() {
    let mut c = ready();
    assert_eq!(
        c.create_listing(lender(), token(), -5, 500, 1, 30, 1500),
        Err(Error::InvalidAmount)
    );
    assert_eq!(c.listing_count(), 0);
    let (id, _) = c.create_listing(lender(), token(), 100, 500, 1, 30, 1500).unwrap();
    assert_eq!(id, 1);
}

#[test]
fn listing_round_trip() {
    let (c, id) = listed();
    let listing = c.get_listing(id).unwrap();
    assert_eq!(listing.listing_id, id);
    assert_eq!(listing.lender, lender());
    assert_eq!(listing.token_address, token());
    assert_eq!(listing.amount, 100);
    assert_eq!(listing.rental_rate, 500);
    assert_eq!(listing.min_duration, 1);
    assert_eq!(listing.max_duration, 30);
    assert_eq!(listing.collateral_rate, 1500);
    assert!(listing.is_available);
    assert_eq!(c.get_user_listings(lender()), vec![id]);
    assert_eq!(c.get_user_listings(stranger()), Vec::<u64>::new());
}

#[test]
fn listing_ids_increase_per_lender() {
    let mut c = ready();
    c.create_listing(lender(), token(), 100, 500, 1, 30, 1500).unwrap();
    c.create_listing(stranger(), token(), 50, 500, 1, 30, 1500).unwrap();
    c.create_listing(lender(), token(), 70, 500, 1, 30, 1500).unwrap();
    assert_eq!(c.get_user_listings(lender()), vec![1, 3]);
    assert_eq!(c.get_user_listings(stranger()), vec![2]);
}

#[test]
fn create_listing_errors() {
    let mut fresh = XRentContract::new(custody());
    assert_eq!(
        fresh.create_listing(lender(), token(), 100, 500, 1, 30, 1500),
        Err(Error::NotInitialized)
    );
    let mut c = ready();
    assert_eq!(
        c.create_listing(lender(), token(), 100, 500, 1, 30, 999),
        Err(Error::InsufficientCollateral)
    );
    assert_eq!(
        c.create_listing(lender(), token(), 100, 500, 1, 366, 1500),
        Err(Error::InvalidDuration)
    );
    assert!(c.create_listing(lender(), token(), 100, 500, 1, 365, 1000).is_ok());
}

#[test]
fn rent_charges_example() {
    let (mut c, listing_id) = listed();
    let (rental_id, transfers) = c.rent_tokens(borrower(), listing_id, 7, 1000).unwrap();
    assert_eq!(
        transfers,
        vec![
            transfer(borrower(), custody(), 50),
            transfer(custody(), lender(), 35),
            transfer(custody(), borrower(), 100),
        ]
    );
    let rental = c.get_rental(rental_id).unwrap();
    assert_eq!(rental.rental_fee, 35);
    assert_eq!(rental.collateral_amount, 15);
    assert_eq!(rental.start_time, 1000);
    assert_eq!(rental.end_time, 1000 + 7 * DAY);
    assert_eq!(rental.token_address, token());
}

#[test]
fn rental_charges_formula() {
    assert_eq!(
        rental_charges(100, 500, 1500, 7, 250),
        Some(RentalCharges {
            rental_fee: 35,
            platform_fee: 0,
            total_fee: 35,
            collateral: 15,
            total_charge: 50,
        })
    );
    assert_eq!(
        rental_charges(10000, 500, 2000, 10, 250),
        Some(RentalCharges {
            rental_fee: 5000,
            platform_fee: 125,
            total_fee: 5125,
            collateral: 2000,
            total_charge: 7125,
        })
    );
    assert_eq!(rental_charges(i128::MAX / 2, 500, 1500, 7, 250), None);
}

#[test]
fn division_truncates_toward_zero() {
    assert_eq!(bp_share_checked(-15, 1000), Some(-1));
    assert_eq!(bp_share_checked(15, 1000), Some(1));
    assert_eq!(rental_charges(1, -1, 1000, 1, 250).unwrap().rental_fee, 0);
    assert_eq!(bp_share_checked(i128::MAX, 2), None);
}

#[test]
fn rent_errors() {
    let (mut c, listing_id) = listed();
    assert_eq!(c.rent_tokens(borrower(), 0, 7, 1000), Err(Error::RentalNotFound));
    assert_eq!(c.rent_tokens(borrower(), 2, 7, 1000), Err(Error::RentalNotFound));
    assert_eq!(c.rent_tokens(borrower(), listing_id, 0, 1000), Err(Error::InvalidDuration));
    assert_eq!(c.rent_tokens(borrower(), listing_id, 31, 1000), Err(Error::InvalidDuration));
    assert_eq!(c.rental_count(), 0);
    c.rent_tokens(borrower(), listing_id, 30, 1000).unwrap();
    assert_eq!(c.rent_tokens(stranger(), listing_id, 7, 1000), Err(Error::RentalActive));
}

#[test]
fn rent_overflow_is_refused() {
    let mut c = ready();
    let (id, _) = c
        .create_listing(lender(), token(), i128::MAX / 2, 500, 1, 30, 1500)
        .unwrap();
    assert_eq!(c.rent_tokens(borrower(), id, 7, 1000), Err(Error::InvalidAmount));
    assert!(c.get_listing(id).unwrap().is_available);
}

#[test]
fn on_time_return_refunds_all_collateral() {
    let (mut c, _, rental_id) = rented();
    let transfers = c.return_tokens(borrower(), rental_id, 1000 + 7 * DAY).unwrap();
    assert_eq!(
        transfers,
        vec![transfer(borrower(), lender(), 100), transfer(custody(), borrower(), 15)]
    );
}

#[test]
fn late_return_splits_collateral() {
    let (mut c, _, rental_id) = rented();
    let transfers = c.return_tokens(borrower(), rental_id, 1001 + 7 * DAY).unwrap();
    assert_eq!(
        transfers,
        vec![
            transfer(borrower(), lender(), 100),
            transfer(custody(), borrower(), 14),
            transfer(custody(), lender(), 1),
        ]
    );
}

#[test]
fn late_split_values() {
    assert_eq!(late_split(15), (14, 1));
    assert_eq!(late_split(1000), (900, 100));
    assert_eq!(late_split(9), (9, 0));
    assert_eq!(late_split(0), (0, 0));
}

#[test]
fn resolved_rental_cannot_resolve_again() {
    let (mut c, _, rental_id) = rented();
    c.return_tokens(borrower(), rental_id, 2000).unwrap();
    assert_eq!(c.return_tokens(borrower(), rental_id, 3000), Err(Error::RentalExpired));
    assert_eq!(
        c.emergency_return(lender(), rental_id, 1001 + 7 * DAY),
        Err(Error::RentalExpired)
    );
    let rental = c.get_rental(rental_id).unwrap();
    assert!(!rental.is_active);
    assert!(rental.is_completed);
}

#[test]
fn return_errors() {
    let (mut c, _, rental_id) = rented();
    assert_eq!(c.return_tokens(borrower(), 2, 2000), Err(Error::RentalNotFound));
    assert_eq!(c.return_tokens(stranger(), rental_id, 2000), Err(Error::UnauthorizedReturn));
    assert!(c.get_rental(rental_id).unwrap().is_active);
}

#[test]
fn emergency_return_only_after_expiry() {
    let (mut c, _, rental_id) = rented();
    assert_eq!(c.emergency_return(lender(), rental_id, 2000), Err(Error::RentalActive));
    assert_eq!(
        c.emergency_return(lender(), rental_id, 1000 + 7 * DAY),
        Err(Error::RentalActive)
    );
    assert_eq!(
        c.emergency_return(stranger(), rental_id, 1001 + 7 * DAY),
        Err(Error::UnauthorizedAccess)
    );
    assert_eq!(c.emergency_return(lender(), 9, 1001 + 7 * DAY), Err(Error::RentalNotFound));
    let transfers = c.emergency_return(lender(), rental_id, 1001 + 7 * DAY).unwrap();
    assert_eq!(
        transfers,
        vec![transfer(borrower(), lender(), 100), transfer(custody(), lender(), 15)]
    );
    assert!(c.get_rental(rental_id).unwrap().is_completed);
    assert_eq!(c.return_tokens(borrower(), rental_id, 9000), Err(Error::RentalExpired));
}

#[test]
fn cancel_returns_escrow_once() {
    let (mut c, listing_id) = listed();
    assert_eq!(c.cancel_listing(stranger(), listing_id), Err(Error::UnauthorizedAccess));
    assert_eq!(c.cancel_listing(lender(), 7), Err(Error::RentalNotFound));
    let transfers = c.cancel_listing(lender(), listing_id).unwrap();
    assert_eq!(transfers, vec![transfer(custody(), lender(), 100)]);
    assert!(!c.get_listing(listing_id).unwrap().is_available);
    assert_eq!(c.cancel_listing(lender(), listing_id), Err(Error::RentalActive));
    assert_eq!(c.rent_tokens(borrower(), listing_id, 7, 1000), Err(Error::RentalActive));
    assert!(!c.get_listing(listing_id).unwrap().is_available);
}

#[test]
fn cancel_rented_listing_fails() {
    let (mut c, listing_id, _) = rented();
    assert_eq!(c.cancel_listing(lender(), listing_id), Err(Error::RentalActive));
}

#[test]
fn lookups_of_missing_ids() {
    let (c, _, _) = rented();
    assert_eq!(c.get_listing(0), None);
    assert_eq!(c.get_listing(2), None);
    assert_eq!(c.get_rental(0), None);
    assert_eq!(c.get_rental(2), None);
    assert_eq!(c.get_user_rentals(lender()), Vec::<u64>::new());
}
