use xrent::contract::XRentContract;
use xrent::types::{Address, Error, Transfer};

fn custody() -> Address {
    Address::new(1)
}

fn admin() -> Address {
    Address::new(2)
}

fn lender() -> Address {
    Address::new(3)
}

fn borrower() -> Address {
    Address::new(4)
}

fn token() -> Address {
    Address::new(5)
}

fn ready() -> XRentContract {
    let mut c = XRentContract::new(custody());
    c.initialize(admin()).unwrap();
    c
}

fn listed() -> (XRentContract, u64) {
    let mut c = ready();
    let (id, _) = c.create_listing(lender(), token(), 100, 500, 1, 30, 1500).unwrap();
    (c, id)
}

fn transfer(from: Address, to: Address, amount: i128) -> Transfer {
    Transfer { token: token(), from, to, amount }
}

#[test]
fn test_initialize_contract() {
    let mut c = XRentContract::new(custody());
    c.initialize(admin()).unwrap();

    let config = c.get_config().unwrap();
    assert_eq!(config.admin, admin());
    assert_eq!(config.platform_fee_rate, 250);
    assert_eq!(config.min_collateral_rate, 1000);
    assert_eq!(config.max_rental_duration, 365);
}

#[test]
fn test_create_listing() {
    let mut c = ready();
    let (listing_id, transfers) = c
        .create_listing(lender(), token(), 100, 500, 1, 30, 1500)
        .unwrap();

    assert_eq!(listing_id, 1);
    assert_eq!(transfers, vec![transfer(lender(), custody(), 100)]);

    let listing = c.get_listing(listing_id).unwrap();
    assert_eq!(listing.lender, lender());
    assert_eq!(listing.amount, 100);
    assert_eq!(listing.rental_rate, 500);
    assert!(listing.is_available);

    let user_listings = c.get_user_listings(lender());
    assert_eq!(user_listings.len(), 1);
    assert_eq!(user_listings[0], listing_id);
}

#[test]
fn test_rent_tokens() {
    let (mut c, listing_id) = listed();
    let (rental_id, _) = c.rent_tokens(borrower(), listing_id, 7, 1000).unwrap();

    assert_eq!(rental_id, 1);

    let rental = c.get_rental(rental_id).unwrap();
    assert_eq!(rental.borrower, borrower());
    assert_eq!(rental.lender, lender());
    assert_eq!(rental.amount, 100);
    assert!(rental.is_active);
    assert!(!rental.is_completed);

    let listing = c.get_listing(listing_id).unwrap();
    assert!(!listing.is_available);

    let user_rentals = c.get_user_rentals(borrower());
    assert_eq!(user_rentals.len(), 1);
    assert_eq!(user_rentals[0], rental_id);
}

#[test]
fn test_return_tokens() {
    let (mut c, listing_id) = listed();
    let (rental_id, _) = c.rent_tokens(borrower(), listing_id, 7, 1000).unwrap();

    c.return_tokens(borrower(), rental_id, 1000).unwrap();

    let rental = c.get_rental(rental_id).unwrap();
    assert!(!rental.is_active);
    assert!(rental.is_completed);
}

#[test]
fn test_cancel_listing() {
    let (mut c, listing_id) = listed();

    c.cancel_listing(lender(), listing_id).unwrap();

    let listing = c.get_listing(listing_id).unwrap();
    assert!(!listing.is_available);
}

#[test]
fn test_double_initialization() {
    let mut c = XRentContract::new(custody());
    c.initialize(admin()).unwrap();

    assert_eq!(c.initialize(admin()), Err(Error::AlreadyInitialized));
}

#[test]
fn test_invalid_amount() {
    let mut c = ready();

    assert_eq!(
        c.create_listing(lender(), token(), 0, 500, 1, 30, 1500),
        Err(Error::InvalidAmount)
    );
}
