use vstd::prelude::*;

use crate::collection::collection_ok;
use crate::collection::verify_collection;
use crate::collection::CollectionData;
use crate::errors::ErrorCode;
use crate::ledger;
use crate::ledger::Balances;
use crate::rental_state::RentalState;
use crate::rental_state::StatusData;

verus! {

/// The record a fresh listing carries: available for rent, no rental in
/// progress, lifecycle just begun.
pub open spec fn listed_record(
    owner: u64,
    car_nft_mint: u64,
    rent_fee: u64,
    deposit_amount: u64,
    bump: u8,
) -> RentalState {
    RentalState {
        owner,
        renter: None,
        car_nft_mint,
        rent_fee,
        rental_duration: None,
        rental_start_time: None,
        deposit_amount,
        rental_bump: bump,
        listed: true,
        rented: false,
        status: StatusData::Active,
        dispute_caller: None,
    }
}

/// Balances after a listing: one asset token has moved from the owner's
/// account into the escrow vault.
pub open spec fn list_balances(b: Balances) -> Balances {
    Balances {
        owner_asset: (b.owner_asset - 1) as u64,
        vault_asset: (b.vault_asset + 1) as u64,
        ..b
    }
}

/// Everything `list_car` decides on: the collection attestation passes and
/// the owner's asset account can cover the move into the vault.
pub open spec fn list_ok(lc: ListCar) -> bool {
    &&& collection_ok(lc.metadata, lc.collection_mint)
    &&& lc.balances.owner_asset >= 1
    &&& lc.balances.vault_asset + 1 <= u64::MAX
}

/// The error `list_car` reports for a snapshot it refuses, the first
/// failing check winning: the collection guard's three violations, then
/// the owner's asset holding, then the vault's capacity.
pub open spec fn list_err(lc: ListCar) -> ErrorCode {
    if lc.metadata is None {
        ErrorCode::MissingCollection
    } else if lc.metadata->0.collection != lc.collection_mint {
        ErrorCode::InvalidCollection
    } else if !lc.metadata->0.verified {
        ErrorCode::UnverifiedCollection
    } else if lc.balances.owner_asset < 1 {
        ErrorCode::InsufficientFunds
    } else {
        ErrorCode::ValueOverflow
    }
}

/// Snapshot of every account the listing operation touches.
///
/// `rental_state` is the freshly allocated record the operation fills in.
/// Listing demands a fresh slot — no active listing for `(car_nft_mint,
/// owner)` may exist, and a record retained after a resolved dispute is
/// never reused — which `list_car` states as its precondition; the account
/// layer guarantees it by refusing to allocate over an existing record.
#[derive(Clone, Copy, Debug, PartialEq, Eq)]
pub struct ListCar {
    /// Identity of the signing owner.
    pub owner: u64,
    /// Identifier of the asset to list.
    pub car_nft_mint: u64,
    /// Collection the asset claims to belong to.
    pub collection_mint: u64,
    /// Attestation record for the asset, if one exists.
    pub metadata: Option<CollectionData>,
    /// Derivation tag of the record's vault authority.
    pub bump: u8,
    /// The record being created.
    pub rental_state: RentalState,
    /// Balances of the touched accounts.
    pub balances: Balances,
}

impl ListCar {
    /// Lists the asset: verifies collection membership, writes the fresh
    /// record, and moves the asset into the escrow vault.
    ///
    /// A collection failure aborts before any transfer; a transfer that the
    /// balances cannot carry aborts with nothing mutated. On success the
    /// record is exactly the fresh listing and the asset sits in the vault.
    ///
    /// The record slot must be fresh: no live listing or running rental is
    /// ever overwritten, and a record whose lifecycle has moved past
    /// `Active` is a permanent account, never reused.
    pub fn list_car(&mut self, rent_fee: u64, deposit_amount: u64, bump: u8) -> (r: Result<
        (),
        ErrorCode,
    >)
        requires
            !old(self).rental_state.listed,
            !old(self).rental_state.rented,
            old(self).rental_state.status is Active,
        ensures
            r is Ok <==> list_ok(*old(self)),
            r is Ok ==> *final(self) == (ListCar {
                rental_state: listed_record(
                    old(self).owner,
                    old(self).car_nft_mint,
                    rent_fee,
                    deposit_amount,
                    bump,
                ),
                balances: list_balances(old(self).balances),
                ..*old(self)
            }),
            r is Ok ==> final(self).rental_state.wf(),
            r is Err ==> *final(self) == *old(self),
            old(self).metadata is None ==> r == Err::<(), ErrorCode>(ErrorCode::MissingCollection),
            old(self).metadata matches Some(m) && m.collection != old(self).collection_mint ==> r
                == Err::<(), ErrorCode>(ErrorCode::InvalidCollection),
            old(self).metadata matches Some(m) && m.collection == old(self).collection_mint
                && !m.verified ==> r == Err::<(), ErrorCode>(ErrorCode::UnverifiedCollection),
            collection_ok(old(self).metadata, old(self).collection_mint) && old(
                self,
            ).balances.owner_asset < 1 ==> r == Err::<(), ErrorCode>(ErrorCode::InsufficientFunds),
            collection_ok(old(self).metadata, old(self).collection_mint) && old(
                self,
            ).balances.owner_asset >= 1 && old(self).balances.vault_asset + 1 > u64::MAX ==> r
                == Err::<(), ErrorCode>(ErrorCode::ValueOverflow),
            final(self).balances.total_funds() == old(self).balances.total_funds(),
            final(self).balances.total_asset() == old(self).balances.total_asset(),
    {
        verify_collection(&self.metadata, self.collection_mint)?;
        if self.balances.owner_asset < 1 {
            return Err(ErrorCode::InsufficientFunds);
        }
        if self.balances.vault_asset > u64::MAX - 1 {
            return Err(ErrorCode::ValueOverflow);
        }
        self.update_state(rent_fee, deposit_amount, bump)?;
        self.transfer_nft()?;
        Ok(())
    }

    /// Writes the fresh listing record: terms recorded, available for rent,
    /// no renter, no start time, lifecycle `Active`.
    pub fn update_state(&mut self, rent_fee: u64, deposit_amount: u64, bump: u8) -> (r: Result<
        (),
        ErrorCode,
    >)
        ensures
            r is Ok,
            *final(self) == (ListCar {
                rental_state: listed_record(
                    old(self).owner,
                    old(self).car_nft_mint,
                    rent_fee,
                    deposit_amount,
                    bump,
                ),
                ..*old(self)
            }),
    {
        self.rental_state = RentalState {
            owner: self.owner,
            renter: None,
            car_nft_mint: self.car_nft_mint,
            rent_fee,
            rental_duration: None,
            rental_start_time: None,
            deposit_amount,
            rental_bump: bump,
            listed: true,
            rented: false,
            status: StatusData::Active,
            dispute_caller: None,
        };
        Ok(())
    }

    /// Moves one asset token from the owner's account into the escrow
    /// vault, all or nothing, authorized by the owner.
    pub fn transfer_nft(&mut self) -> (r: Result<(), ErrorCode>)
        ensures
            r is Ok <==> old(self).balances.owner_asset >= 1 && old(self).balances.vault_asset + 1
                <= u64::MAX,
            r is Ok ==> *final(self) == (ListCar {
                balances: list_balances(old(self).balances),
                ..*old(self)
            }),
            r is Err ==> *final(self) == *old(self),
    {
        ledger::transfer(1, &mut self.balances.owner_asset, &mut self.balances.vault_asset)
    }
}

} // verus!
