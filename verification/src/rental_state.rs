use vstd::prelude::*;

verus! {

/// Lifecycle status of a listing.
///
/// The status only ever moves forward: `Active` to `Dispute` to `Finished`.
/// `Finished` is the terminal status of a record.
#[derive(Clone, Copy, Debug, PartialEq, Eq)]
pub enum StatusData {
    Active,
    Dispute,
    Finished,
}

/// `true` when a status change from `a` to `b` moves forward (or stays put)
/// in the order `Active`, then `Dispute`, then `Finished`.
pub open spec fn status_le(a: StatusData, b: StatusData) -> bool {
    match a {
        StatusData::Active => true,
        StatusData::Dispute => b is Dispute || b is Finished,
        StatusData::Finished => b is Finished,
    }
}

/// The listing record: one asset bound to one owner with its rental terms.
///
/// Identities (owner, renter, asset, dispute caller) are plain account
/// identifiers. Amounts are unsigned token amounts; timestamps and durations
/// are signed seconds, as the external clock supplies them.
#[derive(Clone, Copy, Debug, PartialEq, Eq)]
pub struct RentalState {
    /// Identity of the owner who listed the asset.
    pub owner: u64,
    /// Identity of the current renter; present exactly while rented.
    pub renter: Option<u64>,
    /// Identifier of the listed asset.
    pub car_nft_mint: u64,
    /// Rent fee owed to the owner for one rental.
    pub rent_fee: u64,
    /// Agreed rental duration in seconds; present while rented.
    pub rental_duration: Option<i64>,
    /// Timestamp at which the current rental began; present while rented.
    pub rental_start_time: Option<i64>,
    /// Security deposit returned to the renter on normal settlement.
    pub deposit_amount: u64,
    /// Derivation tag of the record's vault authority.
    pub rental_bump: u8,
    /// `true` while the record offers the asset for rent.
    pub listed: bool,
    /// `true` while a rental is in progress.
    pub rented: bool,
    /// Lifecycle status; moves only forward, `Finished` is terminal.
    pub status: StatusData,
    /// Identity of the arbitrator who resolved a dispute, if one was resolved.
    pub dispute_caller: Option<u64>,
}

/// Capability that authorizes vault-outbound transfers for one listing.
///
/// It is derived deterministically from the record's own identity, so only
/// the protocol itself, never a human party, can move escrowed holdings.
#[derive(Clone, Copy, Debug, PartialEq, Eq)]
pub struct VaultAuthority {
    pub car_nft_mint: u64,
    pub owner: u64,
    pub bump: u8,
}

impl RentalState {
    /// The vault authority that belongs to this record.
    pub open spec fn authority_spec(self) -> VaultAuthority {
        VaultAuthority {
            car_nft_mint: self.car_nft_mint,
            owner: self.owner,
            bump: self.rental_bump,
        }
    }

    /// Derives the capability that authorizes transfers out of this record's
    /// escrow vault.
    pub fn derive_authority(&self) -> (a: VaultAuthority)
        ensures
            a == self.authority_spec(),
    {
        VaultAuthority {
            car_nft_mint: self.car_nft_mint,
            owner: self.owner,
            bump: self.rental_bump,
        }
    }

    /// Well-formedness of a listing record.
    ///
    /// A renter is recorded exactly while a rental is in progress; a running
    /// rental carries a start time and a duration and is still listed; and
    /// while the record is `Active`, a start time is present exactly while
    /// rented. (After a resolved dispute the record is `Finished` and keeps
    /// its last start time as part of the permanent record.)
    pub open spec fn wf(self) -> bool {
        &&& self.rented <==> self.renter is Some
        &&& self.rented ==> self.rental_start_time is Some && self.rental_duration is Some
        &&& self.rented ==> self.listed
        &&& self.status is Active ==> (self.rental_start_time is Some <==> self.rented)
    }
}

} // verus!
