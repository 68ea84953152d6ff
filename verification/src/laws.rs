use vstd::prelude::*;

use crate::collection::collection_ok;
use crate::emergency_exit::exit_balances;
use crate::emergency_exit::exit_ok;
use crate::emergency_exit::exited_record;
use crate::emergency_exit::EmergencyExit;
use crate::end_rental::end_balances;
use crate::end_rental::end_guard_ok;
use crate::end_rental::end_transfers_ok;
use crate::end_rental::ended_record;
use crate::end_rental::EndRental;
use crate::ledger::Balances;
use crate::list_car::list_balances;
use crate::list_car::list_ok;
use crate::list_car::listed_record;
use crate::list_car::ListCar;
use crate::rent_car::rent_balances;
use crate::rent_car::rent_ok;
use crate::rent_car::rent_total;
use crate::rent_car::rented_record;
use crate::rent_car::RentCar;
use crate::rental_state::RentalState;

verus! {

/// A full normal lifecycle settles every holding.
///
/// For any listing, rental and settlement whose snapshots chain together —
/// the rent step starts from the record the listing produced with a fresh
/// fee vault, the settlement step starts from the record and balances the
/// rent step produced, the settling caller is the renter who rented, and
/// the clock has not run backwards — every step's guard holds, so every
/// step succeeds, and afterwards the asset is back with the owner, the
/// deposit is back with the renter, the fee is with the owner, and both
/// vault balances are zero.
pub proof fn lemma_list_rent_end_settles(
    lc: ListCar,
    rent_fee: u64,
    deposit_amount: u64,
    bump: u8,
    rc: RentCar,
    rental_duration: i64,
    er: EndRental,
)
    requires
        list_ok(lc),
        lc.balances.vault_asset == 0,
        lc.balances.vault_funds == 0,
        rc.rental_state == listed_record(
            lc.owner,
            lc.car_nft_mint,
            rent_fee,
            deposit_amount,
            bump,
        ),
        rc.balances == list_balances(lc.balances),
        rent_fee + deposit_amount <= u64::MAX,
        rc.balances.renter_funds >= rent_fee + deposit_amount,
        er.rental_state == rented_record(rc.rental_state, rc.renter, rental_duration, rc.now),
        er.balances == rent_balances(rc.rental_state, rc.balances),
        er.renter == rc.renter,
        er.now >= rc.now,
        er.balances.owner_funds + rent_fee <= u64::MAX,
        collection_ok(er.metadata, er.collection_mint),
    ensures
        rent_ok(rc.rental_state, rc.balances),
        end_guard_ok(er),
        end_transfers_ok(er.rental_state, er.balances),
        end_balances(er.rental_state, er.balances).owner_asset == lc.balances.owner_asset,
        end_balances(er.rental_state, er.balances).vault_asset == 0,
        end_balances(er.rental_state, er.balances).vault_funds == 0,
        end_balances(er.rental_state, er.balances).renter_funds == rc.balances.renter_funds
            - rent_fee,
        end_balances(er.rental_state, er.balances).owner_funds == rc.balances.owner_funds
            + rent_fee,
        !ended_record(er.rental_state).rented,
        ended_record(er.rental_state).renter is None,
        ended_record(er.rental_state).wf(),
{
}

/// While a rental runs, the vault holds exactly the escrowed total.
///
/// A rental always begins against a freshly created fee vault, so after a
/// successful rent step the vault's fee balance is exactly `rent_fee +
/// deposit_amount`, and it stays so until settlement or a dispute drains
/// it: no other operation touches the vault of a running rental.
pub proof fn lemma_rent_fills_escrow(s: RentalState, b: Balances)
    requires
        b.vault_funds == 0,
        rent_ok(s, b),
    ensures
        rent_balances(s, b).vault_funds == rent_total(s),
{
}

/// A record closed by normal settlement cannot be rented again.
///
/// Settlement reclaims the record: it is no longer listed, so for every
/// balance snapshot the rent guard is violated, and a new listing is
/// needed before any further rental.
pub proof fn lemma_ended_record_not_rentable(s: RentalState)
    ensures
        !ended_record(s).listed,
        forall|b: Balances| !rent_ok(ended_record(s), b),
{
}

/// A record finalized by an arbitrated exit is terminal.
///
/// The exit leaves the record `Finished`, and `Finished` never regresses:
/// the rent guard refuses the record for every balance snapshot because
/// its lifecycle has left `Active`, and no caller can pass the settlement
/// guard because no renter is recorded any more. The record stays as a
/// permanent account of the dispute.
pub proof fn lemma_exited_record_terminal(s: RentalState, arbitrator: u64)
    ensures
        exited_record(s, arbitrator).status is Finished,
        exited_record(s, arbitrator).renter is None,
        !exited_record(s, arbitrator).rented,
        forall|b: Balances| !rent_ok(exited_record(s, arbitrator), b),
        forall|caller: u64| exited_record(s, arbitrator).renter != Some(caller),
{
}

/// A payout split within the escrowed total is always honoured.
///
/// Mid-rental — the vault holds the asset and exactly the escrowed total,
/// and the awarded shares fit their destination accounts — an arbitrated
/// exit with `renter_payout + owner_payout` at most the escrowed total
/// succeeds: the asset goes to the owner, each party receives its share,
/// the record is `Finished`, and whatever the split leaves unawarded stays
/// stranded in the vault.
pub proof fn lemma_exit_split_within_escrow(
    ee: EmergencyExit,
    renter_payout: u64,
    owner_payout: u64,
)
    requires
        collection_ok(ee.metadata, ee.collection_mint),
        rent_total(ee.rental_state) <= u64::MAX,
        renter_payout + owner_payout <= rent_total(ee.rental_state),
        ee.balances.vault_funds == rent_total(ee.rental_state),
        ee.balances.vault_asset >= 1,
        ee.balances.owner_asset + 1 <= u64::MAX,
        ee.balances.owner_funds + owner_payout <= u64::MAX,
        ee.balances.renter_funds + renter_payout <= u64::MAX,
    ensures
        exit_ok(ee, renter_payout, owner_payout),
        exit_balances(ee.balances, renter_payout, owner_payout).vault_funds == rent_total(
            ee.rental_state,
        ) - renter_payout - owner_payout,
        exit_balances(ee.balances, renter_payout, owner_payout).owner_funds == ee.balances.owner_funds
            + owner_payout,
        exit_balances(ee.balances, renter_payout, owner_payout).renter_funds
            == ee.balances.renter_funds + renter_payout,
        exit_balances(ee.balances, renter_payout, owner_payout).owner_asset == ee.balances.owner_asset
            + 1,
        exited_record(ee.rental_state, ee.arbitrator).status is Finished,
{
}

} // verus!
