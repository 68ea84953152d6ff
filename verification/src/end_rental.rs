use vstd::prelude::*;

use crate::collection::collection_ok;
use crate::collection::verify_collection;
use crate::collection::CollectionData;
use crate::errors::ErrorCode;
use crate::ledger;
use crate::ledger::Balances;
use crate::rental_state::status_le;
use crate::rental_state::RentalState;
use crate::rental_state::StatusData;
use crate::rental_state::VaultAuthority;

verus! {

/// The record after normal settlement: the rental is cleared and the
/// record is reclaimed — no longer listed, lifecycle `Finished`.
pub open spec fn ended_record(s: RentalState) -> RentalState {
    RentalState {
        renter: None,
        rental_duration: None,
        rental_start_time: None,
        rented: false,
        listed: false,
        status: StatusData::Finished,
        ..s
    }
}

/// Balances after normal settlement: the asset is back with the owner, the
/// deposit back with the renter, the fee with the owner, the vault drained
/// of exactly those amounts.
pub open spec fn end_balances(s: RentalState, b: Balances) -> Balances {
    Balances {
        owner_asset: (b.owner_asset + 1) as u64,
        vault_asset: (b.vault_asset - 1) as u64,
        owner_funds: (b.owner_funds + s.rent_fee) as u64,
        renter_funds: (b.renter_funds + s.deposit_amount) as u64,
        vault_funds: (b.vault_funds - s.deposit_amount - s.rent_fee) as u64,
    }
}

/// The three settlement transfers can all be carried by the balances.
pub open spec fn end_transfers_ok(s: RentalState, b: Balances) -> bool {
    &&& b.vault_asset >= 1
    &&& b.owner_asset + 1 <= u64::MAX
    &&& b.vault_funds >= s.deposit_amount
    &&& b.renter_funds + s.deposit_amount <= u64::MAX
    &&& b.vault_funds - s.deposit_amount >= s.rent_fee
    &&& b.owner_funds + s.rent_fee <= u64::MAX
}

/// The error the first infeasible settlement transfer reports, in the
/// order the transfers run: asset to owner, deposit to renter, fee to
/// owner; a short source before an overflowing destination.
pub open spec fn end_transfer_err(s: RentalState, b: Balances) -> ErrorCode {
    if b.vault_asset < 1 {
        ErrorCode::InsufficientFunds
    } else if b.owner_asset + 1 > u64::MAX {
        ErrorCode::ValueOverflow
    } else if b.vault_funds < s.deposit_amount {
        ErrorCode::InsufficientFunds
    } else if b.renter_funds + s.deposit_amount > u64::MAX {
        ErrorCode::ValueOverflow
    } else if b.vault_funds - s.deposit_amount < s.rent_fee {
        ErrorCode::InsufficientFunds
    } else {
        ErrorCode::ValueOverflow
    }
}

/// The time guard of settlement, in either of its two readings.
///
/// The stored guard compares the clock against the start time alone, so it
/// holds as soon as a rental exists; a deployment that wants true
/// minimum-duration enforcement compares against start time plus duration
/// instead. `enforce_min_duration` selects the reading; the comparison is
/// exact even where the sum leaves the machine integer domain.
pub fn rental_period_elapsed(
    start_time: i64,
    rental_duration: i64,
    now: i64,
    enforce_min_duration: bool,
) -> (b: bool)
    ensures
        enforce_min_duration ==> b == (now >= start_time + rental_duration),
        !enforce_min_duration ==> b == (now >= start_time),
{
    if enforce_min_duration {
        match start_time.checked_add(rental_duration) {
            Some(deadline) => now >= deadline,
            None => rental_duration < 0,
        }
    } else {
        now >= start_time
    }
}

/// The caller is the recorded renter and the rental period has begun.
pub open spec fn end_guard_ok(er: EndRental) -> bool {
    &&& er.rental_state.renter == Some(er.renter)
    &&& er.rental_state.rental_start_time matches Some(t) && er.now >= t
}

/// The error `end_rental` reports for a snapshot it refuses, the first
/// failing check winning: the collection guard's three violations, then
/// the renter identity, then the time guard, then the transfers.
pub open spec fn end_err(er: EndRental) -> ErrorCode {
    if er.metadata is None {
        ErrorCode::MissingCollection
    } else if er.metadata->0.collection != er.collection_mint {
        ErrorCode::InvalidCollection
    } else if !er.metadata->0.verified {
        ErrorCode::UnverifiedCollection
    } else if er.rental_state.renter != Some(er.renter) {
        ErrorCode::InvalidRenter
    } else if !(er.rental_state.rental_start_time matches Some(t) && er.now >= t) {
        ErrorCode::RentalPeriodNotEnd
    } else {
        end_transfer_err(er.rental_state, er.balances)
    }
}

/// Snapshot of every account normal settlement touches.
#[derive(Clone, Copy, Debug, PartialEq, Eq)]
pub struct EndRental {
    /// Identity of the listing's owner.
    pub owner: u64,
    /// Identity of the signer asking to settle; must be the recorded renter.
    pub renter: u64,
    /// Collection the asset claims to belong to.
    pub collection_mint: u64,
    /// Attestation record for the asset, if one exists.
    pub metadata: Option<CollectionData>,
    /// The listing record being settled.
    pub rental_state: RentalState,
    /// Balances of the touched accounts.
    pub balances: Balances,
    /// Current timestamp from the trusted clock.
    pub now: i64,
}

impl EndRental {
    /// Settles the rental normally: the asset returns to the owner, the
    /// deposit to the renter, the fee to the owner, and the record is
    /// cleared and reclaimed.
    ///
    /// Only the recorded renter may settle, and only once the rental period
    /// has begun; every failure leaves the record and every balance
    /// unchanged.
    pub fn end_rental(&mut self) -> (r: Result<(), ErrorCode>)
        requires
            old(self).rental_state.owner == old(self).owner,
        ensures
            r is Ok <==> collection_ok(old(self).metadata, old(self).collection_mint)
                && end_guard_ok(*old(self)) && end_transfers_ok(
                old(self).rental_state,
                old(self).balances,
            ),
            r is Ok ==> *final(self) == (EndRental {
                rental_state: ended_record(old(self).rental_state),
                balances: end_balances(old(self).rental_state, old(self).balances),
                ..*old(self)
            }),
            r is Ok ==> final(self).rental_state.wf(),
            r is Err ==> *final(self) == *old(self),
            old(self).metadata is None ==> r == Err::<(), ErrorCode>(ErrorCode::MissingCollection),
            old(self).metadata matches Some(m) && m.collection != old(self).collection_mint ==> r
                == Err::<(), ErrorCode>(ErrorCode::InvalidCollection),
            old(self).metadata matches Some(m) && m.collection == old(self).collection_mint
                && !m.verified ==> r == Err::<(), ErrorCode>(ErrorCode::UnverifiedCollection),
            collection_ok(old(self).metadata, old(self).collection_mint) && old(
                self,
            ).rental_state.renter != Some(old(self).renter) ==> r == Err::<(), ErrorCode>(
                ErrorCode::InvalidRenter,
            ),
            collection_ok(old(self).metadata, old(self).collection_mint) && old(
                self,
            ).rental_state.renter == Some(old(self).renter) && !(old(
                self,
            ).rental_state.rental_start_time matches Some(t) && old(self).now >= t) ==> r
                == Err::<(), ErrorCode>(ErrorCode::RentalPeriodNotEnd),
            collection_ok(old(self).metadata, old(self).collection_mint) && end_guard_ok(
                *old(self),
            ) && !end_transfers_ok(old(self).rental_state, old(self).balances) ==> r == Err::<
                (),
                ErrorCode,
            >(end_transfer_err(old(self).rental_state, old(self).balances)),
            final(self).balances.total_funds() == old(self).balances.total_funds(),
            final(self).balances.total_asset() == old(self).balances.total_asset(),
            status_le(old(self).rental_state.status, final(self).rental_state.status),
    {
        verify_collection(&self.metadata, self.collection_mint)?;
        let renter_matches = match self.rental_state.renter {
            Some(recorded) => recorded == self.renter,
            None => false,
        };
        if !renter_matches {
            return Err(ErrorCode::InvalidRenter);
        }
        let start_time: i64 = match self.rental_state.rental_start_time {
            Some(t) => t,
            None => {
                return Err(ErrorCode::RentalPeriodNotEnd);
            },
        };
        let duration: i64 = match self.rental_state.rental_duration {
            Some(d) => d,
            None => 0,
        };
        if !rental_period_elapsed(start_time, duration, self.now, false) {
            return Err(ErrorCode::RentalPeriodNotEnd);
        }
        let deposit: u64 = self.rental_state.deposit_amount;
        let fee: u64 = self.rental_state.rent_fee;
        if self.balances.vault_asset < 1 {
            return Err(ErrorCode::InsufficientFunds);
        }
        if self.balances.owner_asset > u64::MAX - 1 {
            return Err(ErrorCode::ValueOverflow);
        }
        if self.balances.vault_funds < deposit {
            return Err(ErrorCode::InsufficientFunds);
        }
        if self.balances.renter_funds > u64::MAX - deposit {
            return Err(ErrorCode::ValueOverflow);
        }
        if self.balances.vault_funds - deposit < fee {
            return Err(ErrorCode::InsufficientFunds);
        }
        if self.balances.owner_funds > u64::MAX - fee {
            return Err(ErrorCode::ValueOverflow);
        }
        let authority = self.rental_state.derive_authority();
        Self::transfer_generic(
            1,
            &mut self.balances.vault_asset,
            &mut self.balances.owner_asset,
            &authority,
            &self.rental_state,
        )?;
        Self::transfer_generic(
            deposit,
            &mut self.balances.vault_funds,
            &mut self.balances.renter_funds,
            &authority,
            &self.rental_state,
        )?;
        Self::transfer_generic(
            fee,
            &mut self.balances.vault_funds,
            &mut self.balances.owner_funds,
            &authority,
            &self.rental_state,
        )?;
        self.rental_state.rental_duration = None;
        self.rental_state.renter = None;
        self.rental_state.rental_start_time = None;
        self.rental_state.rented = false;
        self.rental_state.listed = false;
        self.rental_state.status = StatusData::Finished;
        Ok(())
    }

    /// A vault-outbound balance move. It demands the capability derived
    /// from the record's own identity: no human party can authorize it.
    pub fn transfer_generic(
        amount: u64,
        from: &mut u64,
        to: &mut u64,
        authority: &VaultAuthority,
        record: &RentalState,
    ) -> (r: Result<(), ErrorCode>)
        requires
            *authority == record.authority_spec(),
        ensures
            r is Ok <==> *old(from) >= amount && *old(to) + amount <= u64::MAX,
            r is Ok ==> *final(from) == *old(from) - amount && *final(to) == *old(to) + amount,
            r is Err ==> *final(from) == *old(from) && *final(to) == *old(to),
            *old(from) < amount ==> r == Err::<(), ErrorCode>(ErrorCode::InsufficientFunds),
            *old(from) >= amount && *old(to) + amount > u64::MAX ==> r == Err::<(), ErrorCode>(
                ErrorCode::ValueOverflow,
            ),
            *final(from) + *final(to) == *old(from) + *old(to),
    {
        ledger::transfer(amount, from, to)
    }
}

} // verus!
