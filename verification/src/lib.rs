//! A verified rental-escrow protocol.
//!
//! A uniquely identified collectible asset is listed by its owner, held in an
//! escrow vault together with a rent fee and a security deposit while rented,
//! and released again on normal settlement or through an arbitrated dispute.
//! Every state transition is a total function over plain values: it either
//! performs the whole effect it promises or returns a typed error and leaves
//! every balance and every record field unchanged.
//!
//! The external collaborators — the on-ledger transfer primitive, the clock,
//! the attestation oracle — hand the protocol plain values: balances,
//! timestamps, attestation records. The protocol decides and accounts; a
//! host carries its decisions back to the outside ledger.

pub mod collection;
pub mod emergency_exit;
pub mod end_rental;
pub mod errors;
pub mod laws;
pub mod ledger;
pub mod list_car;
pub mod rent_car;
pub mod rental_state;

pub use collection::CollectionData;
pub use emergency_exit::EmergencyExit;
pub use end_rental::EndRental;
pub use errors::ErrorCode;
pub use ledger::Balances;
pub use list_car::ListCar;
pub use rent_car::RentCar;
pub use rental_state::RentalState;
pub use rental_state::StatusData;
pub use rental_state::VaultAuthority;

use vstd::prelude::*;

verus! {

/// Protocol entry point: lists the asset held in `ctx`.
///
/// Behaves exactly as [`ListCar::list_car`], with the record's stored
/// authority tag taken from the snapshot. The record slot must be fresh:
/// the account layer never allocates over an existing record.
pub fn list_car(ctx: &mut ListCar, rent_fee: u64, deposit_amount: u64) -> (r: Result<
    (),
    ErrorCode,
>)
    requires
        !old(ctx).rental_state.listed,
        !old(ctx).rental_state.rented,
        old(ctx).rental_state.status is Active,
    ensures
        r is Ok <==> list_car::list_ok(*old(ctx)),
        r is Ok ==> *final(ctx) == (ListCar {
            rental_state: list_car::listed_record(
                old(ctx).owner,
                old(ctx).car_nft_mint,
                rent_fee,
                deposit_amount,
                old(ctx).bump,
            ),
            balances: list_car::list_balances(old(ctx).balances),
            ..*old(ctx)
        }),
        r is Err ==> *final(ctx) == *old(ctx),
        r is Err ==> r == Err::<(), ErrorCode>(list_car::list_err(*old(ctx))),
{
    let bump: u8 = ctx.bump;
    ctx.list_car(rent_fee, deposit_amount, bump)
}

/// Protocol entry point: rents the listing held in `ctx`.
///
/// Behaves exactly as [`RentCar::rent_car`].
pub fn rent_car(ctx: &mut RentCar, rental_duration: i64) -> (r: Result<(), ErrorCode>)
    ensures
        r is Ok <==> rent_car::rent_ok(old(ctx).rental_state, old(ctx).balances),
        r is Ok ==> *final(ctx) == (RentCar {
            rental_state: rent_car::rented_record(
                old(ctx).rental_state,
                old(ctx).renter,
                rental_duration,
                old(ctx).now,
            ),
            balances: rent_car::rent_balances(old(ctx).rental_state, old(ctx).balances),
            ..*old(ctx)
        }),
        r is Err ==> *final(ctx) == *old(ctx),
        r is Err ==> r == Err::<(), ErrorCode>(
            rent_car::rent_err(old(ctx).rental_state, old(ctx).balances),
        ),
{
    ctx.rent_car(rental_duration)
}

/// Protocol entry point: settles the rental held in `ctx` normally.
///
/// Behaves exactly as [`EndRental::end_rental`].
pub fn end_rental(ctx: &mut EndRental) -> (r: Result<(), ErrorCode>)
    requires
        old(ctx).rental_state.owner == old(ctx).owner,
    ensures
        r is Ok <==> crate::collection::collection_ok(old(ctx).metadata, old(ctx).collection_mint)
            && end_rental::end_guard_ok(*old(ctx)) && end_rental::end_transfers_ok(
            old(ctx).rental_state,
            old(ctx).balances,
        ),
        r is Ok ==> *final(ctx) == (EndRental {
            rental_state: end_rental::ended_record(old(ctx).rental_state),
            balances: end_rental::end_balances(old(ctx).rental_state, old(ctx).balances),
            ..*old(ctx)
        }),
        r is Err ==> *final(ctx) == *old(ctx),
        r is Err ==> r == Err::<(), ErrorCode>(end_rental::end_err(*old(ctx))),
{
    ctx.end_rental()
}

/// Protocol entry point: resolves the dispute held in `ctx` with the
/// requested payout split.
///
/// Behaves exactly as [`EmergencyExit::exit_payout`].
pub fn emergency_exit(ctx: &mut EmergencyExit, renter_payout: u64, owner_payout: u64) -> (r: Result<
    (),
    ErrorCode,
>)
    requires
        old(ctx).rental_state.owner == old(ctx).owner,
    ensures
        r is Ok <==> emergency_exit::exit_ok(*old(ctx), renter_payout, owner_payout),
        r is Ok ==> *final(ctx) == (EmergencyExit {
            rental_state: emergency_exit::exited_record(old(ctx).rental_state, old(ctx).arbitrator),
            balances: emergency_exit::exit_balances(old(ctx).balances, renter_payout, owner_payout),
            ..*old(ctx)
        }),
        r is Err ==> *final(ctx) == *old(ctx),
        r is Err ==> r == Err::<(), ErrorCode>(
            emergency_exit::exit_err(*old(ctx), renter_payout, owner_payout),
        ),
{
    ctx.exit_payout(renter_payout, owner_payout)
}

} // verus!
