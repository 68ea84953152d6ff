use vstd::prelude::*;

use crate::errors::ErrorCode;
use crate::ledger;
use crate::ledger::Balances;
use crate::rental_state::status_le;
use crate::rental_state::RentalState;
use crate::rental_state::StatusData;

verus! {

/// The fee and deposit owed for one rental, as a mathematical sum.
pub open spec fn rent_total(s: RentalState) -> int {
    s.rent_fee + s.deposit_amount
}

/// The record while a rental runs: renter, duration and start time
/// recorded, rental in progress; every term is kept.
pub open spec fn rented_record(
    s: RentalState,
    renter: u64,
    rental_duration: i64,
    now: i64,
) -> RentalState {
    RentalState {
        renter: Some(renter),
        rental_duration: Some(rental_duration),
        rental_start_time: Some(now),
        rented: true,
        ..s
    }
}

/// Balances after a rental begins: fee and deposit have moved from the
/// renter's account into the escrow vault.
pub open spec fn rent_balances(s: RentalState, b: Balances) -> Balances {
    Balances {
        renter_funds: (b.renter_funds - s.rent_fee - s.deposit_amount) as u64,
        vault_funds: (b.vault_funds + s.rent_fee + s.deposit_amount) as u64,
        ..b
    }
}

/// Everything `rent_car` decides on: the record offers the asset — listed
/// and with its lifecycle still `Active`, so a finalized record is never
/// rented again — no rental is in progress, the summed fee fits the
/// integer domain, and the renter's account covers it.
pub open spec fn rent_ok(s: RentalState, b: Balances) -> bool {
    &&& s.listed
    &&& s.status is Active
    &&& !s.rented
    &&& rent_total(s) <= u64::MAX
    &&& b.renter_funds >= rent_total(s)
    &&& b.vault_funds + rent_total(s) <= u64::MAX
}

/// The error `rent_car` reports for a snapshot it refuses, the first
/// failing guard winning: availability (a record that is not listed, or
/// whose lifecycle has moved past `Active`, no longer offers the asset),
/// then the overflow-checked fee sum, then the renter's balance, then the
/// vault's capacity.
pub open spec fn rent_err(s: RentalState, b: Balances) -> ErrorCode {
    if !s.listed || !(s.status is Active) {
        ErrorCode::CarNotListed
    } else if s.rented {
        ErrorCode::CarAlreadyRented
    } else if rent_total(s) > u64::MAX {
        ErrorCode::ValueOverflow
    } else if b.renter_funds < rent_total(s) {
        ErrorCode::InsufficientFunds
    } else {
        ErrorCode::ValueOverflow
    }
}

/// Snapshot of every account the rent operation touches.
///
/// The caller guarantees that the escrow vault's fee account is freshly
/// created for this rental, so `balances.vault_funds` starts at zero on the
/// normal lifecycle; the operation itself does not depend on it.
#[derive(Clone, Copy, Debug, PartialEq, Eq)]
pub struct RentCar {
    /// Identity of the signing renter.
    pub renter: u64,
    /// Identity of the listing's owner.
    pub owner: u64,
    /// The listing record being rented.
    pub rental_state: RentalState,
    /// Balances of the touched accounts.
    pub balances: Balances,
    /// Current timestamp from the trusted clock.
    pub now: i64,
}

impl RentCar {
    /// Rents the listed asset: after the availability guards pass, collects
    /// fee plus deposit into the escrow vault and records the renter, the
    /// duration and the start time.
    ///
    /// A record whose lifecycle has left `Active` — finalized by normal
    /// settlement or by a resolved dispute — is refused: `Finished` is
    /// terminal. Every failure leaves the record and every balance
    /// unchanged; an overflowing fee sum aborts before any transfer is
    /// attempted.
    pub fn rent_car(&mut self, rental_duration: i64) -> (r: Result<(), ErrorCode>)
        ensures
            r is Ok <==> rent_ok(old(self).rental_state, old(self).balances),
            r is Ok ==> *final(self) == (RentCar {
                rental_state: rented_record(
                    old(self).rental_state,
                    old(self).renter,
                    rental_duration,
                    old(self).now,
                ),
                balances: rent_balances(old(self).rental_state, old(self).balances),
                ..*old(self)
            }),
            r is Ok ==> final(self).rental_state.wf(),
            r is Err ==> *final(self) == *old(self),
            r is Err ==> r == Err::<(), ErrorCode>(
                rent_err(old(self).rental_state, old(self).balances),
            ),
            !old(self).rental_state.listed || !(old(self).rental_state.status is Active) ==> r
                == Err::<(), ErrorCode>(ErrorCode::CarNotListed),
            old(self).rental_state.listed && old(self).rental_state.status is Active && old(
                self,
            ).rental_state.rented ==> r == Err::<(), ErrorCode>(ErrorCode::CarAlreadyRented),
            old(self).rental_state.listed && old(self).rental_state.status is Active && !old(
                self,
            ).rental_state.rented && rent_total(old(self).rental_state) > u64::MAX ==> r == Err::<
                (),
                ErrorCode,
            >(ErrorCode::ValueOverflow),
            final(self).balances.total_funds() == old(self).balances.total_funds(),
            final(self).balances.total_asset() == old(self).balances.total_asset(),
            status_le(old(self).rental_state.status, final(self).rental_state.status),
    {
        if !self.rental_state.listed {
            return Err(ErrorCode::CarNotListed);
        }
        let active = match self.rental_state.status {
            StatusData::Active => true,
            StatusData::Dispute => false,
            StatusData::Finished => false,
        };
        if !active {
            return Err(ErrorCode::CarNotListed);
        }
        if self.rental_state.rented {
            return Err(ErrorCode::CarAlreadyRented);
        }
        self.transfer_rent_fee()?;
        self.rental_state.rental_duration = Some(rental_duration);
        self.rental_state.renter = Some(self.renter);
        self.rental_state.rented = true;
        self.rental_state.rental_start_time = Some(self.now);
        Ok(())
    }

    /// Collects the summed rent fee and deposit from the renter into the
    /// escrow vault: the sum is overflow-checked, the renter's balance must
    /// cover it, and the two transfers land all or nothing.
    pub fn transfer_rent_fee(&mut self) -> (r: Result<(), ErrorCode>)
        ensures
            r is Ok <==> rent_total(old(self).rental_state) <= u64::MAX && old(
                self,
            ).balances.renter_funds >= rent_total(old(self).rental_state) && old(
                self,
            ).balances.vault_funds + rent_total(old(self).rental_state) <= u64::MAX,
            r is Ok ==> *final(self) == (RentCar {
                balances: rent_balances(old(self).rental_state, old(self).balances),
                ..*old(self)
            }),
            r is Err ==> *final(self) == *old(self),
            rent_total(old(self).rental_state) > u64::MAX ==> r == Err::<(), ErrorCode>(
                ErrorCode::ValueOverflow,
            ),
            rent_total(old(self).rental_state) <= u64::MAX && old(self).balances.renter_funds
                < rent_total(old(self).rental_state) ==> r == Err::<(), ErrorCode>(
                ErrorCode::InsufficientFunds,
            ),
            rent_total(old(self).rental_state) <= u64::MAX && old(self).balances.renter_funds
                >= rent_total(old(self).rental_state) && old(self).balances.vault_funds
                + rent_total(old(self).rental_state) > u64::MAX ==> r == Err::<(), ErrorCode>(
                ErrorCode::ValueOverflow,
            ),
    {
        let total_fee: u64 = match self.rental_state.rent_fee.checked_add(
            self.rental_state.deposit_amount,
        ) {
            Some(t) => t,
            None => {
                return Err(ErrorCode::ValueOverflow);
            },
        };
        if self.balances.renter_funds < total_fee {
            return Err(ErrorCode::InsufficientFunds);
        }
        if self.balances.vault_funds > u64::MAX - total_fee {
            return Err(ErrorCode::ValueOverflow);
        }
        ledger::transfer(
            self.rental_state.rent_fee,
            &mut self.balances.renter_funds,
            &mut self.balances.vault_funds,
        )?;
        ledger::transfer(
            self.rental_state.deposit_amount,
            &mut self.balances.renter_funds,
            &mut self.balances.vault_funds,
        )?;
        Ok(())
    }
}

} // verus!
