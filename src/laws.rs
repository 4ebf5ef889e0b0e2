//! Properties of the ledger that relate several operations, proved from the
//! operations' contracts.

use vstd::prelude::*;
use crate::contract::{
    XRentContract, cancel_listing_post, closed_listing, create_listing_post, default_config,
    emergency_return_post, initialize_post, listing_ids_of, listing_record, listing_wf, on_time,
    rent_tokens_post, resolved_rental, return_tokens_post, return_transfers,
};
use crate::fees::{late_penalty_of, trunc_div};
use crate::types::{Address, Error, RentalAgreement, TokenListing, Transfer};

verus! {

/// The sum of the amounts of a sequence of transfers.
pub open spec fn sum_amounts(ts: Seq<Transfer>) -> int
    decreases ts.len(),
{
    if ts.len() == 0 {
        0
    } else {
        sum_amounts(ts.drop_last()) + ts.last().amount
    }
}

/// A ledger is initialized once: the first call on a fresh ledger succeeds and
/// writes the default configuration (fee 250, minimum collateral 1000, longest
/// rental 365 days); a second call fails with `AlreadyInitialized` and leaves
/// that configuration in place.
pub proof fn law_initialize_once(
    s0: XRentContract,
    admin: Address,
    s1: XRentContract,
    r1: Result<(), Error>,
    admin2: Address,
    s2: XRentContract,
    r2: Result<(), Error>,
)
    requires
        s0.config_spec() is None,
        initialize_post(s0, admin, s1, r1),
        initialize_post(s1, admin2, s2, r2),
    ensures
        r1 is Ok,
        s1.config_spec() == Some(default_config(admin)),
        s1.config_spec()->0.admin == admin,
        s1.config_spec()->0.platform_fee_rate == 250,
        s1.config_spec()->0.min_collateral_rate == 1000,
        s1.config_spec()->0.max_rental_duration == 365,
        r2 == Err::<(), Error>(Error::AlreadyInitialized),
        s2.config_spec() == s1.config_spec(),
{
}

/// A listing refused for a non-positive amount fails with `InvalidAmount` and
/// uses up no id: the next listing that succeeds gets the id the refused one
/// would have had.
pub proof fn law_invalid_amount_uses_no_id(
    s0: XRentContract,
    lender: Address,
    token_address: Address,
    amount: i128,
    rental_rate: i128,
    min_duration: u64,
    max_duration: u64,
    collateral_rate: i128,
    s1: XRentContract,
    r1: Result<(u64, Vec<Transfer>), Error>,
    amount2: i128,
    rental_rate2: i128,
    min_duration2: u64,
    max_duration2: u64,
    collateral_rate2: i128,
    s2: XRentContract,
    r2: Result<(u64, Vec<Transfer>), Error>,
)
    requires
        amount <= 0,
        create_listing_post(
            s0,
            lender,
            token_address,
            amount,
            rental_rate,
            min_duration,
            max_duration,
            collateral_rate,
            s1,
            r1,
        ),
        create_listing_post(
            s1,
            lender,
            token_address,
            amount2,
            rental_rate2,
            min_duration2,
            max_duration2,
            collateral_rate2,
            s2,
            r2,
        ),
    ensures
        r1 == Err::<(u64, Vec<Transfer>), Error>(Error::InvalidAmount),
        s1.listings_spec() == s0.listings_spec(),
        s1.next_listing_id() == s0.next_listing_id(),
        r2 matches Ok((id, _)) ==> id == s0.next_listing_id(),
{
}

/// Every id in a user's listing index names a listing that exists.
proof fn lemma_listing_ids_in_range(listings: Seq<TokenListing>, user: Address)
    requires
        forall|i: int| 0 <= i < listings.len() ==> #[trigger] listing_wf(listings[i], i),
    ensures
        forall|k: int|
            0 <= k < listing_ids_of(listings, user).len() ==> 1 <= #[trigger] listing_ids_of(
                listings,
                user,
            )[k] <= listings.len(),
    decreases listings.len(),
{
    if listings.len() > 0 {
        let earlier = listings.drop_last();
        assert forall|i: int| 0 <= i < earlier.len() implies #[trigger] listing_wf(
            earlier[i],
            i,
        ) by {
            assert(listing_wf(listings[i], i));
        }
        lemma_listing_ids_in_range(earlier, user);
        assert(listing_wf(listings[listings.len() - 1], listings.len() - 1));
        let ids = listing_ids_of(listings, user);
        let before = listing_ids_of(earlier, user);
        assert forall|k: int| 0 <= k < ids.len() implies 1 <= #[trigger] ids[k] <= listings.len()
        by {
            if k < before.len() {
                assert(ids[k] == before[k]);
            }
        }
    }
}

/// A listing that was created can be read back under its id with the fields it
/// was given, available; and its id is added exactly once to its lender's
/// listing index, at the end.
pub proof fn law_listing_round_trip(
    s0: XRentContract,
    lender: Address,
    token_address: Address,
    amount: i128,
    rental_rate: i128,
    min_duration: u64,
    max_duration: u64,
    collateral_rate: i128,
    s1: XRentContract,
    r: Result<(u64, Vec<Transfer>), Error>,
)
    requires
        s0.wf(),
        create_listing_post(
            s0,
            lender,
            token_address,
            amount,
            rental_rate,
            min_duration,
            max_duration,
            collateral_rate,
            s1,
            r,
        ),
        r is Ok,
    ensures
        ({
            let id = r->Ok_0.0;
            let before = listing_ids_of(s0.listings_spec(), lender);
            &&& s1.listing_spec(id) == Some(
                listing_record(
                    id,
                    lender,
                    token_address,
                    amount,
                    rental_rate,
                    min_duration,
                    max_duration,
                    collateral_rate,
                ),
            )
            &&& s1.listing_spec(id)->0.is_available
            &&& listing_ids_of(s1.listings_spec(), lender) == before.push(id)
            &&& !before.contains(id)
        }),
{
    let id = r->Ok_0.0;
    let ls = s1.listings_spec();
    assert(ls.drop_last() =~= s0.listings_spec());
    lemma_listing_ids_in_range(s0.listings_spec(), lender);
    let before = listing_ids_of(s0.listings_spec(), lender);
    if before.contains(id) {
        let k = choose|k: int| 0 <= k < before.len() && before[k] == id;
        assert(before[k] <= s0.listings_spec().len());
    }
}

/// Once `return_tokens` has resolved a rental, neither `return_tokens` nor
/// `emergency_return` can resolve it again; the rental's own borrower and
/// lender are told `RentalExpired`.
pub proof fn law_resolved_rental_stays_resolved(
    s0: XRentContract,
    borrower: Address,
    rental_id: u64,
    t0: u64,
    s1: XRentContract,
    r1: Result<Vec<Transfer>, Error>,
    borrower2: Address,
    t1: u64,
    s2: XRentContract,
    r2: Result<Vec<Transfer>, Error>,
    lender: Address,
    t2: u64,
    s3: XRentContract,
    r3: Result<Vec<Transfer>, Error>,
)
    requires
        return_tokens_post(s0, borrower, rental_id, t0, s1, r1),
        r1 is Ok,
        return_tokens_post(s1, borrower2, rental_id, t1, s2, r2),
        emergency_return_post(s1, lender, rental_id, t2, s3, r3),
    ensures
        s1.rental_spec(rental_id) == Some(resolved_rental(s0.rental_spec(rental_id)->0)),
        r2 is Err,
        r3 is Err,
        borrower2 == borrower ==> r2 == Err::<Vec<Transfer>, Error>(Error::RentalExpired),
        lender == s0.rental_spec(rental_id)->0.lender ==> r3 == Err::<Vec<Transfer>, Error>(
            Error::RentalExpired,
        ),
{
}

/// What a return releases from custody, after the borrower has given the
/// tokens back, adds up to the whole collateral. On time all of it goes back
/// to the borrower; late, the lender's penalty is 10% of it, truncated, and
/// the borrower's refund is the rest.
pub proof fn law_return_settles_collateral(custody: Address, r: RentalAgreement, now: u64)
    requires
        0 <= r.collateral_amount <= i128::MAX / 10000,
    ensures
        ({
            let ts = return_transfers(custody, r, now);
            let released = ts.skip(1);
            let penalty = late_penalty_of(r.collateral_amount as int);
            &&& ts[0] == Transfer {
                token: r.token_address,
                from: r.borrower,
                to: r.lender,
                amount: r.amount,
            }
            &&& forall|k: int| 0 <= k < released.len() ==> (#[trigger] released[k]).from == custody
            &&& sum_amounts(released) == r.collateral_amount
            &&& on_time(r, now) ==> released == seq![
                Transfer {
                    token: r.token_address,
                    from: custody,
                    to: r.borrower,
                    amount: r.collateral_amount,
                },
            ]
            &&& penalty == trunc_div(r.collateral_amount * 1000, 10000)
            &&& 0 <= penalty <= r.collateral_amount - penalty
        }),
{
    let c = r.collateral_amount as int;
    let penalty = late_penalty_of(c);
    assert(0 <= penalty <= c - penalty) by (nonlinear_arith)
        requires
            c >= 0,
            penalty == (c * 1000) / 10000,
    ;
    let ts = return_transfers(custody, r, now);
    let released = ts.skip(1);
    reveal_with_fuel(sum_amounts, 3);
    if on_time(r, now) {
        assert(released =~= seq![ts[1]]);
    } else {
        let refund = c - penalty;
        if refund > 0 && penalty > 0 {
            assert(released =~= seq![ts[1], ts[2]]);
            assert(released.drop_last() =~= seq![ts[1]]);
        } else if refund > 0 {
            assert(released =~= seq![ts[1]]);
        } else if penalty > 0 {
            assert(released =~= seq![ts[1]]);
        } else {
            assert(released =~= seq![]);
        }
    }
}

/// `emergency_return` succeeds only strictly after the rental's end, and then
/// hands the whole collateral to the lender; before the end, on an active
/// rental of the calling lender, it fails with `RentalActive`.
pub proof fn law_emergency_only_after_expiry(
    s0: XRentContract,
    lender: Address,
    rental_id: u64,
    now: u64,
    s1: XRentContract,
    r: Result<Vec<Transfer>, Error>,
)
    requires
        emergency_return_post(s0, lender, rental_id, now, s1, r),
    ensures
        ({
            let rental = s0.rental_spec(rental_id)->0;
            let found = s0.rental_spec(rental_id) is Some && rental.lender == lender
                && rental.is_active;
            &&& found && now <= rental.end_time ==> r == Err::<Vec<Transfer>, Error>(
                Error::RentalActive,
            )
            &&& found && now > rental.end_time ==> r is Ok
            &&& r is Ok ==> now > rental.end_time && r->Ok_0@[1] == Transfer {
                token: rental.token_address,
                from: s0.custody_spec(),
                to: lender,
                amount: rental.collateral_amount,
            }
        }),
{
}

/// `cancel_listing` fails on a listing that is no longer available. On an
/// available listing of the calling lender it succeeds, gives the whole
/// escrowed amount back, and the listing is no longer available.
pub proof fn law_cancel_listing(
    s0: XRentContract,
    lender: Address,
    listing_id: u64,
    s1: XRentContract,
    r: Result<Vec<Transfer>, Error>,
)
    requires
        cancel_listing_post(s0, lender, listing_id, s1, r),
    ensures
        ({
            let l = s0.listing_spec(listing_id)->0;
            &&& s0.listing_spec(listing_id) is Some && !l.is_available ==> r is Err
            &&& s0.listing_spec(listing_id) is Some && l.lender == lender && l.is_available
                ==> r is Ok
            &&& r is Ok ==> {
                &&& r->Ok_0@ == seq![
                    Transfer {
                        token: l.token_address,
                        from: s0.custody_spec(),
                        to: lender,
                        amount: l.amount,
                    },
                ]
                &&& s1.listing_spec(listing_id) == Some(closed_listing(l))
                &&& !s1.listing_spec(listing_id)->0.is_available
            }
        }),
{
}

/// A listing that is no longer available stays as it is through renting,
/// listing and cancelling.
pub proof fn law_closed_listing_stays_closed(
    s0: XRentContract,
    id: u64,
    borrower: Address,
    listing_id: u64,
    duration: u64,
    now: u64,
    s1: XRentContract,
    r1: Result<(u64, Vec<Transfer>), Error>,
    lender: Address,
    token_address: Address,
    amount: i128,
    rental_rate: i128,
    min_duration: u64,
    max_duration: u64,
    collateral_rate: i128,
    s2: XRentContract,
    r2: Result<(u64, Vec<Transfer>), Error>,
    canceller: Address,
    cancelled_id: u64,
    s3: XRentContract,
    r3: Result<Vec<Transfer>, Error>,
)
    requires
        s0.listing_spec(id) is Some,
        !s0.listing_spec(id)->0.is_available,
        rent_tokens_post(s0, borrower, listing_id, duration, now, s1, r1),
        create_listing_post(
            s0,
            lender,
            token_address,
            amount,
            rental_rate,
            min_duration,
            max_duration,
            collateral_rate,
            s2,
            r2,
        ),
        cancel_listing_post(s0, canceller, cancelled_id, s3, r3),
    ensures
        s1.listing_spec(id) == s0.listing_spec(id),
        s2.listing_spec(id) == s0.listing_spec(id),
        s3.listing_spec(id) == s0.listing_spec(id),
{
}

} // verus!
