use vstd::prelude::*;

verus! {

/// Every way an operation of the rental-escrow protocol can fail.
///
/// Each error aborts the enclosing operation synchronously: the caller
/// observes either the full effect of an operation or no effect at all.
#[derive(Clone, Copy, Debug, PartialEq, Eq)]
pub enum ErrorCode {
    /// `rent` was attempted on a record that is not listed.
    CarNotListed,
    /// Settlement was attempted before the rental period began, or the
    /// rental period has not yet started for this record.
    RentalPeriodNotEnd,
    /// A transfer could not be covered by the paying account's balance.
    InsufficientFunds,
    /// `rent` was attempted while a rental is already in progress.
    CarAlreadyRented,
    /// A checked addition of funds would exceed the integer domain.
    ValueOverflow,
    /// Settlement was requested by an identity other than the recorded renter.
    InvalidRenter,
    /// A dispute was already initiated for this record.
    DisputeAlreadyInitiated,
    /// A requested payout split exceeds the escrowed total.
    InvalidPayout,
    /// Dispute resolution was requested while no dispute is open.
    DisputeNotInitiated,
    /// The asset has no collection attestation at all.
    MissingCollection,
    /// The attested collection does not match the claimed collection.
    InvalidCollection,
    /// The collection attestation exists but is not marked verified.
    UnverifiedCollection,
}

} // verus!
