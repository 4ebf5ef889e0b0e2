//! The rental ledger: configuration, listing and rental registries, and the
//! operations that move a listing or a rental through its life.
//!
//! Records are never deleted, and ids are handed out from 1 upward without
//! reuse, so the record with id `n` stands at index `n - 1` of its registry.
//! Each operation is given the identity its caller has proved control of, and
//! the current time where it needs one. On success it returns the transfers the
//! token ledger must make; on failure it changes nothing.

use vstd::prelude::*;
use vstd::arithmetic::div_mod::{lemma_div_is_ordered, lemma_div_pos_is_pos};
use crate::fees::{
    BASIS_POINTS, bp_share, charges_fit, charges_of, late_penalty_of, late_split, rental_charges,
};
use crate::types::{Address, Error, PlatformConfig, RentalAgreement, TokenListing, Transfer};

verus! {

/// Platform fee, in basis points of the rental fee.
pub const PLATFORM_FEE_RATE: i128 = 250;

/// Least collateral rate, in basis points.
pub const MIN_COLLATERAL_RATE: i128 = 1000;

/// Longest rental, in days.
pub const MAX_RENTAL_DURATION: u64 = 365;

/// Seconds in a day.
pub const SECONDS_PER_DAY: u64 = 86400;

/// The configuration that `initialize` writes.
pub open spec fn default_config(admin: Address) -> PlatformConfig {
    PlatformConfig {
        admin,
        platform_fee_rate: 250,
        min_collateral_rate: 1000,
        max_rental_duration: 365,
    }
}

/// The record with id `id` in a registry where id `n` stands at index `n - 1`.
pub open spec fn record_at<T>(records: Seq<T>, id: u64) -> Option<T> {
    if 1 <= id && id <= records.len() {
        Some(records[id - 1])
    } else {
        None
    }
}

/// Ids of the listings made by `user`, in the order they were made.
pub open spec fn listing_ids_of(listings: Seq<TokenListing>, user: Address) -> Seq<u64>
    decreases listings.len(),
{
    if listings.len() == 0 {
        seq![]
    } else {
        let earlier = listing_ids_of(listings.drop_last(), user);
        if listings.last().lender == user {
            earlier.push(listings.last().listing_id)
        } else {
            earlier
        }
    }
}

/// Ids of the rentals taken by `user`, in the order they were taken.
pub open spec fn rental_ids_of(rentals: Seq<RentalAgreement>, user: Address) -> Seq<u64>
    decreases rentals.len(),
{
    if rentals.len() == 0 {
        seq![]
    } else {
        let earlier = rental_ids_of(rentals.drop_last(), user);
        if rentals.last().borrower == user {
            earlier.push(rentals.last().rental_id)
        } else {
            earlier
        }
    }
}

/// Well-formedness of a listing stored at index `i`.
pub open spec fn listing_wf(l: TokenListing, i: int) -> bool {
    &&& l.listing_id == i + 1
    &&& l.amount > 0
    &&& l.collateral_rate >= 1000
    &&& l.max_duration <= 365
}

/// Well-formedness of a rental stored at index `i`.
pub open spec fn rental_wf(r: RentalAgreement, i: int) -> bool {
    &&& r.rental_id == i + 1
    &&& r.is_active != r.is_completed
    &&& 0 <= r.collateral_amount <= i128::MAX / 10000
    &&& r.start_time <= r.end_time
    &&& (r.end_time - r.start_time) % 86400 == 0
}

/// The listing that `create_listing` stores under `id`.
pub open spec fn listing_record(
    id: u64,
    lender: Address,
    token_address: Address,
    amount: i128,
    rental_rate: i128,
    min_duration: u64,
    max_duration: u64,
    collateral_rate: i128,
) -> TokenListing {
    TokenListing {
        listing_id: id,
        lender,
        token_address,
        amount,
        rental_rate,
        min_duration,
        max_duration,
        collateral_rate,
        is_available: true,
    }
}

/// The listing `l` once it can no longer be rented.
pub open spec fn closed_listing(l: TokenListing) -> TokenListing {
    TokenListing { is_available: false, ..l }
}

/// The rental that `rent_tokens` stores under `id` when `borrower` takes
/// listing `l` for `duration` days at time `now`, the platform fee rate being
/// `platform_fee_rate`.
pub open spec fn rental_record(
    id: u64,
    l: TokenListing,
    borrower: Address,
    duration: u64,
    now: u64,
    platform_fee_rate: i128,
) -> RentalAgreement {
    let (fee, platform, collateral) = charges_of(
        l.amount as int,
        l.rental_rate as int,
        l.collateral_rate as int,
        duration as int,
        platform_fee_rate as int,
    );
    RentalAgreement {
        rental_id: id,
        lender: l.lender,
        borrower,
        token_address: l.token_address,
        amount: l.amount,
        collateral_amount: collateral as i128,
        rental_fee: fee as i128,
        start_time: now,
        end_time: (now + duration * 86400) as u64,
        is_active: true,
        is_completed: false,
    }
}

/// The transfers of `rent_tokens`, in order: the borrower pays fee, platform
/// fee and collateral into custody; the lender is paid the rental fee; the
/// borrower receives the rented tokens.
pub open spec fn rent_transfers(
    custody: Address,
    l: TokenListing,
    borrower: Address,
    duration: u64,
    platform_fee_rate: i128,
) -> Seq<Transfer> {
    let (fee, platform, collateral) = charges_of(
        l.amount as int,
        l.rental_rate as int,
        l.collateral_rate as int,
        duration as int,
        platform_fee_rate as int,
    );
    seq![
        Transfer {
            token: l.token_address,
            from: borrower,
            to: custody,
            amount: (fee + platform + collateral) as i128,
        },
        Transfer { token: l.token_address, from: custody, to: l.lender, amount: fee as i128 },
        Transfer { token: l.token_address, from: custody, to: borrower, amount: l.amount },
    ]
}

/// The rental `r` once it has been resolved.
pub open spec fn resolved_rental(r: RentalAgreement) -> RentalAgreement {
    RentalAgreement { is_active: false, is_completed: true, ..r }
}

/// Whether a rental returned at `now` is on time.
pub open spec fn on_time(r: RentalAgreement, now: u64) -> bool {
    now <= r.end_time
}

/// The transfers of `return_tokens` at time `now`, in order: the borrower
/// gives the tokens back to the lender; then, on time, the whole collateral
/// goes back to the borrower; late, the borrower gets the refund and the
/// lender the penalty, each only when it is positive.
pub open spec fn return_transfers(custody: Address, r: RentalAgreement, now: u64) -> Seq<Transfer> {
    let penalty = late_penalty_of(r.collateral_amount as int);
    let refund = r.collateral_amount - penalty;
    let give_back = Transfer {
        token: r.token_address,
        from: r.borrower,
        to: r.lender,
        amount: r.amount,
    };
    let refund_part = if refund > 0 {
        seq![
            Transfer {
                token: r.token_address,
                from: custody,
                to: r.borrower,
                amount: refund as i128,
            },
        ]
    } else {
        seq![]
    };
    let penalty_part = if penalty > 0 {
        seq![
            Transfer {
                token: r.token_address,
                from: custody,
                to: r.lender,
                amount: penalty as i128,
            },
        ]
    } else {
        seq![]
    };
    if on_time(r, now) {
        seq![
            give_back,
            Transfer {
                token: r.token_address,
                from: custody,
                to: r.borrower,
                amount: r.collateral_amount,
            },
        ]
    } else {
        seq![give_back] + refund_part + penalty_part
    }
}

/// The transfers of `emergency_return`: the lender takes the tokens back from
/// the borrower, and the whole collateral.
pub open spec fn emergency_transfers(custody: Address, r: RentalAgreement) -> Seq<Transfer> {
    seq![
        Transfer { token: r.token_address, from: r.borrower, to: r.lender, amount: r.amount },
        Transfer {
            token: r.token_address,
            from: custody,
            to: r.lender,
            amount: r.collateral_amount,
        },
    ]
}

/// The transfer of `cancel_listing`: the escrowed tokens go back to the lender.
pub open spec fn cancel_transfers(custody: Address, l: TokenListing) -> Seq<Transfer> {
    seq![Transfer { token: l.token_address, from: custody, to: l.lender, amount: l.amount }]
}

/// Well-formedness of a ledger's records: the configuration, if any, is the
/// default one; without it there are no records; every record is well-formed
/// at its index.
pub open spec fn parts_wf(
    config: Option<PlatformConfig>,
    listings: Seq<TokenListing>,
    rentals: Seq<RentalAgreement>,
) -> bool {
    &&& config matches Some(c) ==> c == default_config(c.admin)
    &&& config is None ==> listings.len() == 0 && rentals.len() == 0
    &&& forall|i: int| 0 <= i < listings.len() ==> #[trigger] listing_wf(listings[i], i)
    &&& forall|i: int| 0 <= i < rentals.len() ==> #[trigger] rental_wf(rentals[i], i)
}

pub struct XRentContract {
    custody: Address,
    config: Option<PlatformConfig>,
    listings: Vec<TokenListing>,
    rentals: Vec<RentalAgreement>,
}

impl XRentContract {
    /// The account that holds escrowed tokens.
    pub closed spec fn custody_spec(&self) -> Address {
        self.custody
    }

    pub closed spec fn config_spec(&self) -> Option<PlatformConfig> {
        self.config
    }

    /// All listings, the one with id `n` at index `n - 1`.
    pub closed spec fn listings_spec(&self) -> Seq<TokenListing> {
        self.listings@
    }

    /// All rentals, the one with id `n` at index `n - 1`.
    pub closed spec fn rentals_spec(&self) -> Seq<RentalAgreement> {
        self.rentals@
    }

    pub open spec fn listing_spec(&self, id: u64) -> Option<TokenListing> {
        record_at(self.listings_spec(), id)
    }

    pub open spec fn rental_spec(&self, id: u64) -> Option<RentalAgreement> {
        record_at(self.rentals_spec(), id)
    }

    /// The id the next listing will get.
    pub open spec fn next_listing_id(&self) -> int {
        (self.listings_spec().len() + 1) as int
    }

    /// The id the next rental will get.
    pub open spec fn next_rental_id(&self) -> int {
        (self.rentals_spec().len() + 1) as int
    }

    pub open spec fn wf(&self) -> bool {
        parts_wf(self.config_spec(), self.listings_spec(), self.rentals_spec())
    }

    /// An empty, uninitialized ledger whose escrow is held by `custody`.
    pub fn new(custody: Address) -> (r: XRentContract)
        ensures
            r.wf(),
            r.custody_spec() == custody,
            r.config_spec() is None,
            r.listings_spec().len() == 0,
            r.rentals_spec().len() == 0,
    {
        XRentContract { custody, config: None, listings: Vec::new(), rentals: Vec::new() }
    }

    /// The account that holds escrowed tokens.
    pub fn custody(&self) -> (r: Address)
        ensures
            r == self.custody_spec(),
    {
        self.custody
    }

    /// Writes the platform configuration with `admin` and the fixed default
    /// rates. Fails with `AlreadyInitialized` when a configuration exists.
    pub fn initialize(&mut self, admin: Address) -> (r: Result<(), Error>)
        requires
            old(self).wf(),
        ensures
            final(self).wf(),
            initialize_post(*old(self), admin, *final(self), r),
    {
        if self.config.is_some() {
            return Err(Error::AlreadyInitialized);
        }
        self.config = Some(
            PlatformConfig {
                admin,
                platform_fee_rate: PLATFORM_FEE_RATE,
                min_collateral_rate: MIN_COLLATERAL_RATE,
                max_rental_duration: MAX_RENTAL_DURATION,
            },
        );
        Ok(())
    }

    /// The error `create_listing` fails with, if any: the checks are made in
    /// this order.
    pub open spec fn create_listing_error(
        &self,
        amount: i128,
        max_duration: u64,
        collateral_rate: i128,
    ) -> Option<Error> {
        if amount <= 0 {
            Some(Error::InvalidAmount)
        } else if self.config_spec() is None {
            Some(Error::NotInitialized)
        } else if collateral_rate < self.config_spec()->0.min_collateral_rate {
            Some(Error::InsufficientCollateral)
        } else if max_duration > self.config_spec()->0.max_rental_duration {
            Some(Error::InvalidDuration)
        } else {
            None
        }
    }

    /// Lists `amount` of `token_address` for rent, escrowing it from `lender`,
    /// and returns the new listing's id with the escrow transfer.
    pub fn create_listing(
        &mut self,
        lender: Address,
        token_address: Address,
        amount: i128,
        rental_rate: i128,
        min_duration: u64,
        max_duration: u64,
        collateral_rate: i128,
    ) -> (r: Result<(u64, Vec<Transfer>), Error>)
        requires
            old(self).wf(),
            old(self).listings_spec().len() < u64::MAX,
        ensures
            final(self).wf(),
            create_listing_post(
                *old(self),
                lender,
                token_address,
                amount,
                rental_rate,
                min_duration,
                max_duration,
                collateral_rate,
                *final(self),
                r,
            ),
    {
        if amount <= 0 {
            return Err(Error::InvalidAmount);
        }
        let config = match self.config {
            Some(c) => c,
            None => return Err(Error::NotInitialized),
        };
        if collateral_rate < config.min_collateral_rate {
            return Err(Error::InsufficientCollateral);
        }
        if max_duration > config.max_rental_duration {
            return Err(Error::InvalidDuration);
        }
        let escrow = Transfer { token: token_address, from: lender, to: self.custody, amount };
        let listing_id = self.listings.len() as u64 + 1;
        let listing = TokenListing {
            listing_id,
            lender,
            token_address,
            amount,
            rental_rate,
            min_duration,
            max_duration,
            collateral_rate,
            is_available: true,
        };
        self.listings.push(listing);
        proof {
            assert forall|i: int| 0 <= i < self.listings@.len() implies #[trigger] listing_wf(
                self.listings@[i],
                i,
            ) by {
                if i < old(self).listings@.len() {
                    assert(listing_wf(old(self).listings@[i], i));
                }
            }
            assert(self.config_spec() == old(self).config_spec());
            assert(self.rentals_spec() == old(self).rentals_spec());
            assert(self.wf());
        }
        let transfers = vec![escrow];
        proof {
            assert(transfers@ =~= seq![escrow]);
        }
        Ok((listing_id, transfers))
    }

    /// The error `rent_tokens` fails with, if any: the checks are made in this
    /// order. An arithmetic result that does not fit in an `i128` is refused as
    /// `InvalidAmount`.
    pub open spec fn rent_error(&self, listing_id: u64, duration: u64) -> Option<Error> {
        let l = self.listing_spec(listing_id)->0;
        if self.listing_spec(listing_id) is None {
            Some(Error::RentalNotFound)
        } else if !l.is_available {
            Some(Error::RentalActive)
        } else if duration < l.min_duration || duration > l.max_duration {
            Some(Error::InvalidDuration)
        } else if self.config_spec() is None {
            Some(Error::NotInitialized)
        } else if !charges_fit(
            l.amount as int,
            l.rental_rate as int,
            l.collateral_rate as int,
            duration as int,
            self.config_spec()->0.platform_fee_rate as int,
        ) {
            Some(Error::InvalidAmount)
        } else {
            None
        }
    }

    /// `borrower` rents listing `listing_id` for `duration` days from time
    /// `now`. Returns the new rental's id with the transfers that pay for it
    /// and hand the tokens over.
    pub fn rent_tokens(
        &mut self,
        borrower: Address,
        listing_id: u64,
        duration: u64,
        now: u64,
    ) -> (r: Result<(u64, Vec<Transfer>), Error>)
        requires
            old(self).wf(),
            old(self).rentals_spec().len() < u64::MAX,
            now <= u64::MAX - 365 * 86400,
        ensures
            final(self).wf(),
            rent_tokens_post(*old(self), borrower, listing_id, duration, now, *final(self), r),
    {
        if listing_id == 0 || listing_id > self.listings.len() as u64 {
            return Err(Error::RentalNotFound);
        }
        let index = (listing_id - 1) as usize;
        let listing = self.listings[index];
        if !listing.is_available {
            return Err(Error::RentalActive);
        }
        if duration < listing.min_duration || duration > listing.max_duration {
            return Err(Error::InvalidDuration);
        }
        let config = match self.config {
            Some(c) => c,
            None => return Err(Error::NotInitialized),
        };
        let charges = match rental_charges(
            listing.amount,
            listing.rental_rate,
            listing.collateral_rate,
            duration,
            config.platform_fee_rate,
        ) {
            Some(c) => c,
            None => return Err(Error::InvalidAmount),
        };
        proof {
            assert(listing_wf(self.listings@[index as int], index as int));
        }
        let transfers = vec![
            Transfer {
                token: listing.token_address,
                from: borrower,
                to: self.custody,
                amount: charges.total_charge,
            },
            Transfer {
                token: listing.token_address,
                from: self.custody,
                to: listing.lender,
                amount: charges.rental_fee,
            },
            Transfer {
                token: listing.token_address,
                from: self.custody,
                to: borrower,
                amount: listing.amount,
            },
        ];
        let rental_id = self.rentals.len() as u64 + 1;
        let end_time = now + duration * SECONDS_PER_DAY;
        let rental = RentalAgreement {
            rental_id,
            lender: listing.lender,
            borrower,
            token_address: listing.token_address,
            amount: listing.amount,
            collateral_amount: charges.collateral,
            rental_fee: charges.rental_fee,
            start_time: now,
            end_time,
            is_active: true,
            is_completed: false,
        };
        proof {
            lemma_collateral_bounded(listing.amount as int, listing.collateral_rate as int);
            assert((end_time - now) % 86400 == 0) by (nonlinear_arith)
                requires
                    end_time - now == duration * 86400,
            ;
            assert(rental_wf(rental, self.rentals@.len() as int));
        }
        self.rentals.push(rental);
        let mut closed = listing;
        closed.is_available = false;
        self.listings.set(index, closed);
        proof {
            assert forall|i: int| 0 <= i < self.listings@.len() implies #[trigger] listing_wf(
                self.listings@[i],
                i,
            ) by {
                assert(listing_wf(old(self).listings@[i], i));
            }
            assert forall|i: int| 0 <= i < self.rentals@.len() implies #[trigger] rental_wf(
                self.rentals@[i],
                i,
            ) by {
                if i < old(self).rentals@.len() {
                    assert(rental_wf(old(self).rentals@[i], i));
                }
            }
            assert(self.config_spec() == old(self).config_spec());
            assert(self.wf());
            assert(transfers@ =~= rent_transfers(
                self.custody,
                listing,
                borrower,
                duration,
                config.platform_fee_rate,
            ));
        }
        Ok((rental_id, transfers))
    }

    /// The error `return_tokens` fails with, if any, in this order.
    pub open spec fn return_error(&self, borrower: Address, rental_id: u64) -> Option<Error> {
        let r = self.rental_spec(rental_id)->0;
        if self.rental_spec(rental_id) is None {
            Some(Error::RentalNotFound)
        } else if r.borrower != borrower {
            Some(Error::UnauthorizedReturn)
        } else if !r.is_active {
            Some(Error::RentalExpired)
        } else {
            None
        }
    }

    /// `borrower` gives back the tokens of rental `rental_id` at time `now`,
    /// which resolves the rental; the collateral is released by timeliness.
    pub fn return_tokens(&mut self, borrower: Address, rental_id: u64, now: u64) -> (r: Result<
        Vec<Transfer>,
        Error,
    >)
        requires
            old(self).wf(),
        ensures
            final(self).wf(),
            return_tokens_post(*old(self), borrower, rental_id, now, *final(self), r),
    {
        if rental_id == 0 || rental_id > self.rentals.len() as u64 {
            return Err(Error::RentalNotFound);
        }
        let index = (rental_id - 1) as usize;
        let rental = self.rentals[index];
        if rental.borrower != borrower {
            return Err(Error::UnauthorizedReturn);
        }
        if !rental.is_active {
            return Err(Error::RentalExpired);
        }
        proof {
            assert(rental_wf(self.rentals@[index as int], index as int));
        }
        let mut transfers: Vec<Transfer> = Vec::new();
        transfers.push(
            Transfer {
                token: rental.token_address,
                from: borrower,
                to: rental.lender,
                amount: rental.amount,
            },
        );
        if now <= rental.end_time {
            transfers.push(
                Transfer {
                    token: rental.token_address,
                    from: self.custody,
                    to: borrower,
                    amount: rental.collateral_amount,
                },
            );
        } else {
            let (refund, penalty) = late_split(rental.collateral_amount);
            if refund > 0 {
                transfers.push(
                    Transfer {
                        token: rental.token_address,
                        from: self.custody,
                        to: borrower,
                        amount: refund,
                    },
                );
            }
            if penalty > 0 {
                transfers.push(
                    Transfer {
                        token: rental.token_address,
                        from: self.custody,
                        to: rental.lender,
                        amount: penalty,
                    },
                );
            }
        }
        let mut resolved = rental;
        resolved.is_active = false;
        resolved.is_completed = true;
        self.rentals.set(index, resolved);
        proof {
            assert forall|i: int| 0 <= i < self.rentals@.len() implies #[trigger] rental_wf(
                self.rentals@[i],
                i,
            ) by {
                assert(rental_wf(old(self).rentals@[i], i));
            }
            assert(self.config_spec() == old(self).config_spec());
            assert(self.listings_spec() == old(self).listings_spec());
            assert(self.wf());
            assert(transfers@ =~= return_transfers(self.custody, rental, now));
        }
        Ok(transfers)
    }

    /// The error `emergency_return` fails with, if any, in this order.
    pub open spec fn emergency_error(&self, lender: Address, rental_id: u64, now: u64) -> Option<
        Error,
    > {
        let r = self.rental_spec(rental_id)->0;
        if self.rental_spec(rental_id) is None {
            Some(Error::RentalNotFound)
        } else if r.lender != lender {
            Some(Error::UnauthorizedAccess)
        } else if !r.is_active {
            Some(Error::RentalExpired)
        } else if on_time(r, now) {
            Some(Error::RentalActive)
        } else {
            None
        }
    }

    /// `lender` recovers the tokens of rental `rental_id` after it expired,
    /// taking the whole collateral; this resolves the rental.
    pub fn emergency_return(&mut self, lender: Address, rental_id: u64, now: u64) -> (r: Result<
        Vec<Transfer>,
        Error,
    >)
        requires
            old(self).wf(),
        ensures
            final(self).wf(),
            emergency_return_post(*old(self), lender, rental_id, now, *final(self), r),
    {
        if rental_id == 0 || rental_id > self.rentals.len() as u64 {
            return Err(Error::RentalNotFound);
        }
        let index = (rental_id - 1) as usize;
        let rental = self.rentals[index];
        if rental.lender != lender {
            return Err(Error::UnauthorizedAccess);
        }
        if !rental.is_active {
            return Err(Error::RentalExpired);
        }
        if now <= rental.end_time {
            return Err(Error::RentalActive);
        }
        let transfers = vec![
            Transfer {
                token: rental.token_address,
                from: rental.borrower,
                to: lender,
                amount: rental.amount,
            },
            Transfer {
                token: rental.token_address,
                from: self.custody,
                to: lender,
                amount: rental.collateral_amount,
            },
        ];
        let mut resolved = rental;
        resolved.is_active = false;
        resolved.is_completed = true;
        self.rentals.set(index, resolved);
        proof {
            assert forall|i: int| 0 <= i < self.rentals@.len() implies #[trigger] rental_wf(
                self.rentals@[i],
                i,
            ) by {
                assert(rental_wf(old(self).rentals@[i], i));
            }
            assert(self.config_spec() == old(self).config_spec());
            assert(self.listings_spec() == old(self).listings_spec());
            assert(self.wf());
            assert(transfers@ =~= emergency_transfers(self.custody, rental));
        }
        Ok(transfers)
    }

    /// The error `cancel_listing` fails with, if any, in this order.
    pub open spec fn cancel_error(&self, lender: Address, listing_id: u64) -> Option<Error> {
        let l = self.listing_spec(listing_id)->0;
        if self.listing_spec(listing_id) is None {
            Some(Error::RentalNotFound)
        } else if l.lender != lender {
            Some(Error::UnauthorizedAccess)
        } else if !l.is_available {
            Some(Error::RentalActive)
        } else {
            None
        }
    }

    /// `lender` withdraws listing `listing_id` while it is still available,
    /// taking back the escrowed tokens.
    pub fn cancel_listing(&mut self, lender: Address, listing_id: u64) -> (r: Result<
        Vec<Transfer>,
        Error,
    >)
        requires
            old(self).wf(),
        ensures
            final(self).wf(),
            cancel_listing_post(*old(self), lender, listing_id, *final(self), r),
    {
        if listing_id == 0 || listing_id > self.listings.len() as u64 {
            return Err(Error::RentalNotFound);
        }
        let index = (listing_id - 1) as usize;
        let listing = self.listings[index];
        if listing.lender != lender {
            return Err(Error::UnauthorizedAccess);
        }
        if !listing.is_available {
            return Err(Error::RentalActive);
        }
        let transfers = vec![
            Transfer {
                token: listing.token_address,
                from: self.custody,
                to: lender,
                amount: listing.amount,
            },
        ];
        let mut closed = listing;
        closed.is_available = false;
        self.listings.set(index, closed);
        proof {
            assert forall|i: int| 0 <= i < self.listings@.len() implies #[trigger] listing_wf(
                self.listings@[i],
                i,
            ) by {
                assert(listing_wf(old(self).listings@[i], i));
            }
            assert(self.config_spec() == old(self).config_spec());
            assert(self.rentals_spec() == old(self).rentals_spec());
            assert(self.wf());
            assert(transfers@ =~= cancel_transfers(self.custody, listing));
        }
        Ok(transfers)
    }

    /// The rental with id `rental_id`, if there is one.
    pub fn get_rental(&self, rental_id: u64) -> (r: Option<RentalAgreement>)
        ensures
            r == self.rental_spec(rental_id),
    {
        if rental_id == 0 || rental_id > self.rentals.len() as u64 {
            None
        } else {
            Some(self.rentals[(rental_id - 1) as usize])
        }
    }

    /// The listing with id `listing_id`, if there is one.
    pub fn get_listing(&self, listing_id: u64) -> (r: Option<TokenListing>)
        ensures
            r == self.listing_spec(listing_id),
    {
        if listing_id == 0 || listing_id > self.listings.len() as u64 {
            None
        } else {
            Some(self.listings[(listing_id - 1) as usize])
        }
    }

    /// The platform configuration, once initialized.
    pub fn get_config(&self) -> (r: Option<PlatformConfig>)
        ensures
            r == self.config_spec(),
    {
        self.config
    }

    /// Ids of the rentals `user` has taken, oldest first.
    pub fn get_user_rentals(&self, user: Address) -> (r: Vec<u64>)
        ensures
            r@ == rental_ids_of(self.rentals_spec(), user),
    {
        let mut ids: Vec<u64> = Vec::new();
        let mut i: usize = 0;
        while i < self.rentals.len()
            invariant
                i <= self.rentals@.len(),
                ids@ == rental_ids_of(self.rentals@.take(i as int), user),
            decreases self.rentals@.len() - i,
        {
            proof {
                assert(self.rentals@.take(i as int + 1).drop_last() =~= self.rentals@.take(
                    i as int,
                ));
            }
            if self.rentals[i].borrower == user {
                ids.push(self.rentals[i].rental_id);
            }
            i = i + 1;
        }
        proof {
            assert(self.rentals@.take(i as int) =~= self.rentals@);
        }
        ids
    }

    /// Ids of the listings `user` has made, oldest first.
    pub fn get_user_listings(&self, user: Address) -> (r: Vec<u64>)
        ensures
            r@ == listing_ids_of(self.listings_spec(), user),
    {
        let mut ids: Vec<u64> = Vec::new();
        let mut i: usize = 0;
        while i < self.listings.len()
            invariant
                i <= self.listings@.len(),
                ids@ == listing_ids_of(self.listings@.take(i as int), user),
            decreases self.listings@.len() - i,
        {
            proof {
                assert(self.listings@.take(i as int + 1).drop_last() =~= self.listings@.take(
                    i as int,
                ));
            }
            if self.listings[i].lender == user {
                ids.push(self.listings[i].listing_id);
            }
            i = i + 1;
        }
        proof {
            assert(self.listings@.take(i as int) =~= self.listings@);
        }
        ids
    }

    /// How many listings have been made.
    pub fn listing_count(&self) -> (r: usize)
        ensures
            r == self.listings_spec().len(),
    {
        self.listings.len()
    }

    /// How many rentals have been taken.
    pub fn rental_count(&self) -> (r: usize)
        ensures
            r == self.rentals_spec().len(),
    {
        self.rentals.len()
    }

    /// The ledger's records, to be stored: custody, configuration, listings
    /// and rentals.
    pub fn into_parts(self) -> (r: (
        Address,
        Option<PlatformConfig>,
        Vec<TokenListing>,
        Vec<RentalAgreement>,
    ))
        ensures
            r.0 == self.custody_spec(),
            r.1 == self.config_spec(),
            r.2@ == self.listings_spec(),
            r.3@ == self.rentals_spec(),
    {
        (self.custody, self.config, self.listings, self.rentals)
    }

    /// Rebuilds a ledger from stored records, or `None` when they do not make
    /// a well-formed ledger.
    pub fn from_parts(
        custody: Address,
        config: Option<PlatformConfig>,
        listings: Vec<TokenListing>,
        rentals: Vec<RentalAgreement>,
    ) -> (r: Option<XRentContract>)
        ensures
            r is Some <==> parts_wf(config, listings@, rentals@),
            r matches Some(c) ==> c.wf() && c.custody_spec() == custody && c.config_spec() == config
                && c.listings_spec() == listings@ && c.rentals_spec() == rentals@,
    {
        let config_ok = match config {
            Some(c) => c.platform_fee_rate == PLATFORM_FEE_RATE && c.min_collateral_rate
                == MIN_COLLATERAL_RATE && c.max_rental_duration == MAX_RENTAL_DURATION,
            None => listings.len() == 0 && rentals.len() == 0,
        };
        if !config_ok {
            return None;
        }
        let mut i: usize = 0;
        while i < listings.len()
            invariant
                i <= listings@.len(),
                forall|j: int| 0 <= j < i ==> #[trigger] listing_wf(listings@[j], j),
            decreases listings@.len() - i,
        {
            let l = listings[i];
            if l.listing_id != i as u64 + 1 || l.amount <= 0 || l.collateral_rate
                < MIN_COLLATERAL_RATE || l.max_duration > MAX_RENTAL_DURATION {
                assert(!listing_wf(listings@[i as int], i as int));
                return None;
            }
            i = i + 1;
        }
        let mut k: usize = 0;
        while k < rentals.len()
            invariant
                k <= rentals@.len(),
                forall|j: int| 0 <= j < k ==> #[trigger] rental_wf(rentals@[j], j),
            decreases rentals@.len() - k,
        {
            let r = rentals[k];
            if r.rental_id != k as u64 + 1 || r.is_active == r.is_completed || r.collateral_amount
                < 0 || r.collateral_amount > i128::MAX / BASIS_POINTS || r.start_time > r.end_time
                || (r.end_time - r.start_time) % SECONDS_PER_DAY != 0 {
                assert(!rental_wf(rentals@[k as int], k as int));
                return None;
            }
            k = k + 1;
        }
        Some(XRentContract { custody, config, listings, rentals })
    }
}

/// What `initialize` does: on a fresh ledger it writes the default configuration
/// for `admin`; once a configuration exists it fails with `AlreadyInitialized`.
/// The registries are left as they are.
pub open spec fn initialize_post(
    pre: XRentContract,
    admin: Address,
    post: XRentContract,
    r: Result<(), Error>,
) -> bool {
    &&& post.custody_spec() == pre.custody_spec()
    &&& post.listings_spec() == pre.listings_spec()
    &&& post.rentals_spec() == pre.rentals_spec()
    &&& pre.config_spec() is Some ==> r == Err::<(), Error>(Error::AlreadyInitialized)
        && post.config_spec() == pre.config_spec()
    &&& pre.config_spec() is None ==> r is Ok
        && post.config_spec() == Some(default_config(admin))
        && post.next_listing_id() == 1
        && post.next_rental_id() == 1
}

/// What `create_listing` does: fail with the first error of
/// `create_listing_error` and change nothing; or store the new listing under
/// the next id and escrow `amount` from the lender.
pub open spec fn create_listing_post(
    pre: XRentContract,
    lender: Address,
    token_address: Address,
    amount: i128,
    rental_rate: i128,
    min_duration: u64,
    max_duration: u64,
    collateral_rate: i128,
    post: XRentContract,
    r: Result<(u64, Vec<Transfer>), Error>,
) -> bool {
    &&& post.custody_spec() == pre.custody_spec()
    &&& post.config_spec() == pre.config_spec()
    &&& post.rentals_spec() == pre.rentals_spec()
    &&& r is Err <==> pre.create_listing_error(amount, max_duration, collateral_rate)
            is Some
    &&& r matches Err(e) ==> pre.create_listing_error(
            amount,
            max_duration,
            collateral_rate,
        ) == Some(e) && post.listings_spec() == pre.listings_spec()
    &&& r matches Ok((id, transfers)) ==> {
            &&& id == pre.next_listing_id()
            &&& post.listings_spec() == pre.listings_spec().push(
                listing_record(
                    id,
                    lender,
                    token_address,
                    amount,
                    rental_rate,
                    min_duration,
                    max_duration,
                    collateral_rate,
                ),
            )
            &&& transfers@ == seq![
                Transfer {
                    token: token_address,
                    from: lender,
                    to: pre.custody_spec(),
                    amount,
                },
            ]
        }
}

/// What `rent_tokens` does: fail with the first error of `rent_error` and
/// change nothing; or store the new rental under the next id, close the
/// listing, and ask for the transfers of `rent_transfers`.
pub open spec fn rent_tokens_post(
    pre: XRentContract,
    borrower: Address,
    listing_id: u64,
    duration: u64,
    now: u64,
    post: XRentContract,
    r: Result<(u64, Vec<Transfer>), Error>,
) -> bool {
    &&& post.custody_spec() == pre.custody_spec()
    &&& post.config_spec() == pre.config_spec()
    &&& r is Err <==> pre.rent_error(listing_id, duration) is Some
    &&& r matches Err(e) ==> pre.rent_error(listing_id, duration) == Some(e)
            && post.listings_spec() == pre.listings_spec()
            && post.rentals_spec() == pre.rentals_spec()
    &&& r matches Ok((id, transfers)) ==> {
            let l = pre.listing_spec(listing_id)->0;
            let rate = pre.config_spec()->0.platform_fee_rate;
            &&& id == pre.next_rental_id()
            &&& post.rentals_spec() == pre.rentals_spec().push(
                rental_record(id, l, borrower, duration, now, rate),
            )
            &&& post.listings_spec() == pre.listings_spec().update(
                listing_id - 1,
                closed_listing(l),
            )
            &&& transfers@ == rent_transfers(
                pre.custody_spec(),
                l,
                borrower,
                duration,
                rate,
            )
        }
}

/// What `return_tokens` does: fail with the first error of `return_error` and
/// change nothing; or resolve the rental and ask for the transfers of
/// `return_transfers`.
pub open spec fn return_tokens_post(
    pre: XRentContract,
    borrower: Address,
    rental_id: u64,
    now: u64,
    post: XRentContract,
    r: Result<Vec<Transfer>, Error>,
) -> bool {
    &&& post.custody_spec() == pre.custody_spec()
    &&& post.config_spec() == pre.config_spec()
    &&& post.listings_spec() == pre.listings_spec()
    &&& r is Err <==> pre.return_error(borrower, rental_id) is Some
    &&& r matches Err(e) ==> pre.return_error(borrower, rental_id) == Some(e)
            && post.rentals_spec() == pre.rentals_spec()
    &&& r matches Ok(transfers) ==> {
            let rental = pre.rental_spec(rental_id)->0;
            &&& post.rentals_spec() == pre.rentals_spec().update(
                rental_id - 1,
                resolved_rental(rental),
            )
            &&& transfers@ == return_transfers(pre.custody_spec(), rental, now)
        }
}

/// What `emergency_return` does: fail with the first error of
/// `emergency_error` and change nothing; or resolve the rental and ask for the
/// transfers of `emergency_transfers`.
pub open spec fn emergency_return_post(
    pre: XRentContract,
    lender: Address,
    rental_id: u64,
    now: u64,
    post: XRentContract,
    r: Result<Vec<Transfer>, Error>,
) -> bool {
    &&& post.custody_spec() == pre.custody_spec()
    &&& post.config_spec() == pre.config_spec()
    &&& post.listings_spec() == pre.listings_spec()
    &&& r is Err <==> pre.emergency_error(lender, rental_id, now) is Some
    &&& r matches Err(e) ==> pre.emergency_error(lender, rental_id, now) == Some(e)
            && post.rentals_spec() == pre.rentals_spec()
    &&& r matches Ok(transfers) ==> {
            let rental = pre.rental_spec(rental_id)->0;
            &&& post.rentals_spec() == pre.rentals_spec().update(
                rental_id - 1,
                resolved_rental(rental),
            )
            &&& transfers@ == emergency_transfers(pre.custody_spec(), rental)
        }
}

/// What `cancel_listing` does: fail with the first error of `cancel_error` and
/// change nothing; or close the listing and give the escrow back.
pub open spec fn cancel_listing_post(
    pre: XRentContract,
    lender: Address,
    listing_id: u64,
    post: XRentContract,
    r: Result<Vec<Transfer>, Error>,
) -> bool {
    &&& post.custody_spec() == pre.custody_spec()
    &&& post.config_spec() == pre.config_spec()
    &&& post.rentals_spec() == pre.rentals_spec()
    &&& r is Err <==> pre.cancel_error(lender, listing_id) is Some
    &&& r matches Err(e) ==> pre.cancel_error(lender, listing_id) == Some(e)
            && post.listings_spec() == pre.listings_spec()
    &&& r matches Ok(transfers) ==> {
            let l = pre.listing_spec(listing_id)->0;
            &&& post.listings_spec() == pre.listings_spec().update(
                listing_id - 1,
                closed_listing(l),
            )
            &&& transfers@ == cancel_transfers(pre.custody_spec(), l)
        }
}

/// The collateral of a well-formed listing fits the bound rentals keep.
proof fn lemma_collateral_bounded(amount: int, collateral_rate: int)
    requires
        amount > 0,
        collateral_rate >= 1000,
        amount * collateral_rate <= i128::MAX,
    ensures
        0 <= bp_share(amount, collateral_rate) <= i128::MAX / 10000,
{
    assert(amount * collateral_rate > 0) by (nonlinear_arith)
        requires
            amount > 0,
            collateral_rate >= 1000,
    ;
    lemma_div_is_ordered(amount * collateral_rate, i128::MAX as int, 10000);
    lemma_div_pos_is_pos(amount * collateral_rate, 10000);
}

} // verus!
