//! Failure taxonomy of the voter library: authorization, integrity, policy,
//! dedup/staleness and resource errors. Every rejection is reported to the
//! caller; nothing is silently recovered.

use vstd::prelude::*;

verus! {

/// Why a call was rejected.
#[derive(Clone, Copy, PartialEq, Eq, Structural, Debug)]
pub enum NftVoterError {
    /// Neither the leaf owner nor the leaf delegate signed the call.
    LeafAuthorityMustSign,
    /// The voter authority is neither the governing token owner nor its
    /// delegate, or it did not sign.
    GoverningTokenOwnerOrDelegateMustSign,
    /// The token owner record belongs to another realm or token mint.
    InvalidTokenOwnerRecord,
    /// The voter weight record names a different owner than the token owner
    /// record.
    InvalidTokenOwnerForVoterWeightRecord,
    /// The voter weight record belongs to another realm.
    InvalidVoterWeightRecordRealm,
    /// The voter weight record belongs to another governing token mint.
    InvalidVoterWeightRecordMint,
    /// The recomputed canonical asset id differs from the claimed one.
    InvalidAssetId,
    /// The recomputed content hash differs from the claimed one.
    InvalidMetadata,
    /// The root recomputed from the membership proof differs from the
    /// claimed tree root.
    InvalidProof,
    /// The claim's collection-verified flag is false.
    CollectionMustBeVerified,
    /// The claimed collection is not configured in the registrar.
    CollectionNotFound,
    /// The voter does not hold the claimed asset.
    VoterDoesNotOwnNft,
    /// The presented metadata account describes another mint than the
    /// claimed one.
    TokenMetadataDoesNotMatch,
    /// A marker for this (proposal, asset) pair already exists.
    NftAlreadyVoted,
    /// The same asset appears twice within one batch.
    DuplicatedNftDetected,
    /// Vote-casting weight cannot be finalized through the staging path.
    CastVoteIsNotAllowed,
    /// The ticket table belongs to another registrar, owner or action.
    InvalidNftTicketTable,
    /// A staged ticket's expiry lies before the current slot.
    NftTicketExpired,
    /// The ticket table has reached the capacity it was created with.
    NftTicketTableFull,
    /// The realm authority did not sign a registry mutation.
    InvalidRealmAuthority,
    /// The registrar already holds as many collections as it was created
    /// for.
    MaximumCollectionsReached,
    /// Summed weights do not fit in 64 bits.
    VoterWeightOverflow,
    /// No address can be derived from the given seeds and bump.
    InvalidSeeds,
}

} // verus!
