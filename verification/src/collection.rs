use vstd::prelude::*;

use crate::errors::ErrorCode;

verus! {

/// Attestation record for an asset, as the external attestation oracle
/// reports it: the collection the asset claims to belong to, and whether
/// that membership has been verified.
#[derive(Clone, Copy, Debug, PartialEq, Eq)]
pub struct CollectionData {
    /// Identifier of the collection the attestation refers to.
    pub collection: u64,
    /// `true` once the membership has been attested as verified.
    pub verified: bool,
}

/// `true` when an attestation exists, refers to the claimed collection,
/// and is marked verified.
pub open spec fn collection_ok(metadata: Option<CollectionData>, collection_mint: u64) -> bool {
    &&& metadata is Some
    &&& metadata->0.collection == collection_mint
    &&& metadata->0.verified
}

/// Pure collection-membership guard.
///
/// Succeeds exactly when the asset's attestation exists, names the claimed
/// collection, and is marked verified; otherwise it reports which of the
/// three checks failed, the first violation winning. No side effects.
pub fn verify_collection(metadata: &Option<CollectionData>, collection_mint: u64) -> (r: Result<
    (),
    ErrorCode,
>)
    ensures
        r is Ok <==> collection_ok(*metadata, collection_mint),
        *metadata is None ==> r == Err::<(), ErrorCode>(ErrorCode::MissingCollection),
        *metadata matches Some(m) && m.collection != collection_mint ==> r == Err::<(), ErrorCode>(
            ErrorCode::InvalidCollection,
        ),
        *metadata matches Some(m) && m.collection == collection_mint && !m.verified ==> r
            == Err::<(), ErrorCode>(ErrorCode::UnverifiedCollection),
{
    match metadata {
        None => Err(ErrorCode::MissingCollection),
        Some(m) => {
            if m.collection != collection_mint {
                Err(ErrorCode::InvalidCollection)
            } else if !m.verified {
                Err(ErrorCode::UnverifiedCollection)
            } else {
                Ok(())
            }
        },
    }
}

} // verus!
