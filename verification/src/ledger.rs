use vstd::prelude::*;

use crate::errors::ErrorCode;

verus! {

/// Balances of every account one listing's escrow touches.
///
/// Two token kinds are tracked: the collectible asset itself (a supply of
/// one) and the fungible fee token. `vault_asset` and `vault_funds` belong
/// to the escrow vault, which only the listing's derived authority may
/// debit; the remaining accounts belong to the human parties.
#[derive(Clone, Copy, Debug, PartialEq, Eq)]
pub struct Balances {
    /// The owner's holding of the asset token.
    pub owner_asset: u64,
    /// The escrow vault's holding of the asset token.
    pub vault_asset: u64,
    /// The owner's fee-token account.
    pub owner_funds: u64,
    /// The renter's fee-token account.
    pub renter_funds: u64,
    /// The escrow vault's fee-token account.
    pub vault_funds: u64,
}

impl Balances {
    /// Total fee tokens across every tracked account, as a mathematical sum.
    pub open spec fn total_funds(self) -> int {
        self.owner_funds + self.renter_funds + self.vault_funds
    }

    /// Total asset tokens across every tracked account.
    pub open spec fn total_asset(self) -> int {
        self.owner_asset + self.vault_asset
    }
}

/// The ledger's balance move: debit `from` and credit `to` by `amount`,
/// all or nothing.
///
/// The move succeeds exactly when the paying account covers the amount and
/// the receiving account stays within the integer domain; on any failure
/// neither balance changes. The sum of the two balances is conserved.
pub fn transfer(amount: u64, from: &mut u64, to: &mut u64) -> (r: Result<(), ErrorCode>)
    ensures
        r is Ok <==> *old(from) >= amount && *old(to) + amount <= u64::MAX,
        r is Ok ==> *final(from) == *old(from) - amount && *final(to) == *old(to) + amount,
        r is Err ==> *final(from) == *old(from) && *final(to) == *old(to),
        *old(from) < amount ==> r == Err::<(), ErrorCode>(ErrorCode::InsufficientFunds),
        *old(from) >= amount && *old(to) + amount > u64::MAX ==> r == Err::<(), ErrorCode>(
            ErrorCode::ValueOverflow,
        ),
        *final(from) + *final(to) == *old(from) + *old(to),
{
    if *from < amount {
        return Err(ErrorCode::InsufficientFunds);
    }
    match to.checked_add(amount) {
        Some(credited) => {
            *from = *from - amount;
            *to = credited;
            Ok(())
        },
        None => Err(ErrorCode::ValueOverflow),
    }
}

} // verus!
