use vstd::prelude::*;

use crate::collection::collection_ok;
use crate::collection::verify_collection;
use crate::collection::CollectionData;
use crate::errors::ErrorCode;
use crate::ledger;
use crate::ledger::Balances;
use crate::rent_car::rent_total;
use crate::rental_state::status_le;
use crate::rental_state::RentalState;
use crate::rental_state::StatusData;
use crate::rental_state::VaultAuthority;

verus! {

/// The record after an arbitrated exit: the rental is cleared, the
/// arbitrator is recorded, and the record is kept as a permanent
/// `Finished` account of the dispute. The last start time is retained.
pub open spec fn exited_record(s: RentalState, arbitrator: u64) -> RentalState {
    RentalState {
        renter: None,
        rental_duration: None,
        rented: false,
        status: StatusData::Finished,
        dispute_caller: Some(arbitrator),
        ..s
    }
}

/// Balances after an arbitrated exit: the asset is with the owner and each
/// party holds its awarded payout; whatever the split leaves behind stays
/// in the vault.
pub open spec fn exit_balances(
    b: Balances,
    renter_payout: u64,
    owner_payout: u64,
) -> Balances {
    Balances {
        owner_asset: (b.owner_asset + 1) as u64,
        vault_asset: (b.vault_asset - 1) as u64,
        owner_funds: (b.owner_funds + owner_payout) as u64,
        renter_funds: (b.renter_funds + renter_payout) as u64,
        vault_funds: (b.vault_funds - owner_payout - renter_payout) as u64,
    }
}

/// The exit transfers can all be carried by the balances.
pub open spec fn exit_transfers_ok(b: Balances, renter_payout: u64, owner_payout: u64) -> bool {
    &&& b.vault_asset >= 1
    &&& b.owner_asset + 1 <= u64::MAX
    &&& b.vault_funds >= owner_payout
    &&& b.owner_funds + owner_payout <= u64::MAX
    &&& b.vault_funds - owner_payout >= renter_payout
    &&& b.renter_funds + renter_payout <= u64::MAX
}

/// The error the first infeasible exit transfer reports, in the order the
/// transfers run: asset to owner, owner payout, renter payout; a short
/// source before an overflowing destination.
pub open spec fn exit_transfer_err(b: Balances, renter_payout: u64, owner_payout: u64) -> ErrorCode {
    if b.vault_asset < 1 {
        ErrorCode::InsufficientFunds
    } else if b.owner_asset + 1 > u64::MAX {
        ErrorCode::ValueOverflow
    } else if b.vault_funds < owner_payout {
        ErrorCode::InsufficientFunds
    } else if b.owner_funds + owner_payout > u64::MAX {
        ErrorCode::ValueOverflow
    } else if b.vault_funds - owner_payout < renter_payout {
        ErrorCode::InsufficientFunds
    } else {
        ErrorCode::ValueOverflow
    }
}

/// Everything `exit_payout` decides on: the attestation passes, the
/// escrowed total fits the integer domain, the requested split stays
/// within it, and the balances can carry the transfers.
pub open spec fn exit_ok(ee: EmergencyExit, renter_payout: u64, owner_payout: u64) -> bool {
    &&& collection_ok(ee.metadata, ee.collection_mint)
    &&& rent_total(ee.rental_state) <= u64::MAX
    &&& renter_payout + owner_payout <= rent_total(ee.rental_state)
    &&& exit_transfers_ok(ee.balances, renter_payout, owner_payout)
}

/// The error `exit_payout` reports for a snapshot it refuses, the first
/// failing check winning: the collection guard's three violations, then
/// the overflow-checked escrow total, then the payout bound, then the
/// transfers.
pub open spec fn exit_err(ee: EmergencyExit, renter_payout: u64, owner_payout: u64) -> ErrorCode {
    if ee.metadata is None {
        ErrorCode::MissingCollection
    } else if ee.metadata->0.collection != ee.collection_mint {
        ErrorCode::InvalidCollection
    } else if !ee.metadata->0.verified {
        ErrorCode::UnverifiedCollection
    } else if rent_total(ee.rental_state) > u64::MAX {
        ErrorCode::ValueOverflow
    } else if renter_payout + owner_payout > rent_total(ee.rental_state) {
        ErrorCode::InvalidPayout
    } else {
        exit_transfer_err(ee.balances, renter_payout, owner_payout)
    }
}

/// Snapshot of every account an arbitrated exit touches. Owner, renter and
/// arbitrator have all signed the request.
#[derive(Clone, Copy, Debug, PartialEq, Eq)]
pub struct EmergencyExit {
    /// Identity of the listing's owner.
    pub owner: u64,
    /// Identity of the signing renter.
    pub renter: u64,
    /// Identity of the signing arbitrator.
    pub arbitrator: u64,
    /// Collection the asset claims to belong to.
    pub collection_mint: u64,
    /// Attestation record for the asset, if one exists.
    pub metadata: Option<CollectionData>,
    /// The listing record under dispute.
    pub rental_state: RentalState,
    /// Balances of the touched accounts.
    pub balances: Balances,
}

impl EmergencyExit {
    /// Resolves a dispute with an arbitrated payout split: the asset goes
    /// back to the owner unconditionally, each party receives its awarded
    /// share of the escrowed total, and the record is finalized with the
    /// arbitrator on file.
    ///
    /// The split must not exceed the escrowed total `rent_fee +
    /// deposit_amount`; a split that leaves part of the escrow unawarded
    /// strands that remainder in the vault. Every failure leaves the record
    /// and every balance unchanged. (The record's dispute confirmation is
    /// set and checked within the same call, so no separate dispute status
    /// is ever observable from outside.)
    pub fn exit_payout(&mut self, renter_payout: u64, owner_payout: u64) -> (r: Result<
        (),
        ErrorCode,
    >)
        requires
            old(self).rental_state.owner == old(self).owner,
        ensures
            r is Ok <==> exit_ok(*old(self), renter_payout, owner_payout),
            r is Ok ==> *final(self) == (EmergencyExit {
                rental_state: exited_record(old(self).rental_state, old(self).arbitrator),
                balances: exit_balances(old(self).balances, renter_payout, owner_payout),
                ..*old(self)
            }),
            r is Ok ==> final(self).rental_state.wf(),
            r is Err ==> *final(self) == *old(self),
            old(self).metadata is None ==> r == Err::<(), ErrorCode>(ErrorCode::MissingCollection),
            old(self).metadata matches Some(m) && m.collection != old(self).collection_mint ==> r
                == Err::<(), ErrorCode>(ErrorCode::InvalidCollection),
            old(self).metadata matches Some(m) && m.collection == old(self).collection_mint
                && !m.verified ==> r == Err::<(), ErrorCode>(ErrorCode::UnverifiedCollection),
            collection_ok(old(self).metadata, old(self).collection_mint) && rent_total(
                old(self).rental_state,
            ) > u64::MAX ==> r == Err::<(), ErrorCode>(ErrorCode::ValueOverflow),
            collection_ok(old(self).metadata, old(self).collection_mint) && rent_total(
                old(self).rental_state,
            ) <= u64::MAX && renter_payout + owner_payout > rent_total(old(self).rental_state)
                ==> r == Err::<(), ErrorCode>(ErrorCode::InvalidPayout),
            collection_ok(old(self).metadata, old(self).collection_mint) && rent_total(
                old(self).rental_state,
            ) <= u64::MAX && renter_payout + owner_payout <= rent_total(old(self).rental_state)
                && !exit_transfers_ok(old(self).balances, renter_payout, owner_payout) ==> r
                == Err::<(), ErrorCode>(
                exit_transfer_err(old(self).balances, renter_payout, owner_payout),
            ),
            final(self).balances.total_funds() == old(self).balances.total_funds(),
            final(self).balances.total_asset() == old(self).balances.total_asset(),
            status_le(old(self).rental_state.status, final(self).rental_state.status),
    {
        verify_collection(&self.metadata, self.collection_mint)?;
        let total_in_escrow: u64 = match self.rental_state.rent_fee.checked_add(
            self.rental_state.deposit_amount,
        ) {
            Some(t) => t,
            None => {
                return Err(ErrorCode::ValueOverflow);
            },
        };
        let payout_sum: u64 = match renter_payout.checked_add(owner_payout) {
            Some(s) => s,
            None => {
                return Err(ErrorCode::InvalidPayout);
            },
        };
        if payout_sum > total_in_escrow {
            return Err(ErrorCode::InvalidPayout);
        }
        if self.balances.vault_asset < 1 {
            return Err(ErrorCode::InsufficientFunds);
        }
        if self.balances.owner_asset > u64::MAX - 1 {
            return Err(ErrorCode::ValueOverflow);
        }
        if self.balances.vault_funds < owner_payout {
            return Err(ErrorCode::InsufficientFunds);
        }
        if self.balances.owner_funds > u64::MAX - owner_payout {
            return Err(ErrorCode::ValueOverflow);
        }
        if self.balances.vault_funds - owner_payout < renter_payout {
            return Err(ErrorCode::InsufficientFunds);
        }
        if self.balances.renter_funds > u64::MAX - renter_payout {
            return Err(ErrorCode::ValueOverflow);
        }
        let authority = self.rental_state.derive_authority();
        Self::transfer_generic(
            1,
            &mut self.balances.vault_asset,
            &mut self.balances.owner_asset,
            &authority,
            &self.rental_state,
        )?;
        if owner_payout > 0 {
            Self::transfer_generic(
                owner_payout,
                &mut self.balances.vault_funds,
                &mut self.balances.owner_funds,
                &authority,
                &self.rental_state,
            )?;
        }
        if renter_payout > 0 {
            Self::transfer_generic(
                renter_payout,
                &mut self.balances.vault_funds,
                &mut self.balances.renter_funds,
                &authority,
                &self.rental_state,
            )?;
        }
        self.rental_state.dispute_caller = Some(self.arbitrator);
        self.rental_state.rental_duration = None;
        self.rental_state.renter = None;
        self.rental_state.rented = false;
        self.rental_state.status = StatusData::Finished;
        Ok(())
    }

    /// A vault-outbound balance move. It demands the capability derived
    /// from the record's own identity: no human party can authorize it.
    pub fn transfer_generic(
        amount: u64,
        from: &mut u64,
        to: &mut u64,
        authority: &VaultAuthority,
        record: &RentalState,
    ) -> (r: Result<(), ErrorCode>)
        requires
            *authority == record.authority_spec(),
        ensures
            r is Ok <==> *old(from) >= amount && *old(to) + amount <= u64::MAX,
            r is Ok ==> *final(from) == *old(from) - amount && *final(to) == *old(to) + amount,
            r is Err ==> *final(from) == *old(from) && *final(to) == *old(to),
            *old(from) < amount ==> r == Err::<(), ErrorCode>(ErrorCode::InsufficientFunds),
            *old(from) >= amount && *old(to) + amount > u64::MAX ==> r == Err::<(), ErrorCode>(
                ErrorCode::ValueOverflow,
            ),
            *final(from) + *final(to) == *old(from) + *old(to),
    {
        ledger::transfer(amount, from, to)
    }
}

} // verus!
