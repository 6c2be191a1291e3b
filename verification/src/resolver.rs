//! The weight resolver: composes the membership verifier with the
//! collection registry to turn one (asset, proof) pair into a
//! (weight, canonical asset id) tuple, or an error. Also keeps the
//! within-call list of already resolved assets, so that the same asset
//! cannot be submitted twice in one batch.

use vstd::prelude::*;
use crate::error::NftVoterError;
use crate::pubkey::{pubkey_eq, Pubkey};
use crate::registrar::{config_of, has_collection, Registrar};
use crate::verify_cnft_info::{spec_verify_cnft_info, verify_cnft_info, CompressedNftAsset, VerifyCnftInfo};
use crate::nft_metadata::metadata_bounded;

verus! {

/// What resolving one compressed claim returns: verification first, then
/// ownership by the staging voter, then the registry lookup, then the
/// within-batch duplicate check.
pub open spec fn spec_resolve_cnft_vote_weight(
    registrar: Registrar,
    governing_token_owner: Pubkey,
    accounts: VerifyCnftInfo,
    params: CompressedNftAsset,
    seen: Seq<Pubkey>,
) -> Result<(u64, Pubkey), NftVoterError> {
    match spec_verify_cnft_info(accounts, params) {
        Err(e) => Err(e),
        Ok(asset_id) => {
            if accounts.leaf_owner != governing_token_owner {
                Err(NftVoterError::VoterDoesNotOwnNft)
            } else if !params.metadata.collection_verified {
                Err(NftVoterError::CollectionMustBeVerified)
            } else if !has_collection(
                registrar.collection_configs@,
                params.metadata.collection_key,
            ) {
                Err(NftVoterError::CollectionNotFound)
            } else if seen.contains(asset_id) {
                Err(NftVoterError::DuplicatedNftDetected)
            } else {
                Ok(
                    (
                        config_of(registrar.collection_configs@, params.metadata.collection_key).weight,
                        asset_id,
                    ),
                )
            }
        },
    }
}

/// Whether `key` stands in `keys`.
fn contains_pubkey(keys: &Vec<Pubkey>, key: &Pubkey) -> (r: bool)
    ensures
        r == keys@.contains(*key),
{
    let mut i: usize = 0;
    while i < keys.len()
        invariant
            i <= keys@.len(),
            forall|j: int| 0 <= j < i ==> keys@[j] != *key,
        decreases keys@.len() - i,
    {
        if pubkey_eq(&keys[i], key) {
            assert(keys@[i as int] == *key);
            return true;
        }
        i += 1;
    }
    assert(!keys@.contains(*key));
    false
}

/// Resolves one claimed compressed asset to its voting weight and canonical
/// asset id: the claim must verify, the leaf owner must be the voter, the
/// collection must be verified and configured, and the asset must not have
/// been resolved earlier in the same call. On success the asset id is added
/// to the within-call list; on failure nothing changes.
pub fn resolve_cnft_vote_weight(
    registrar: &Registrar,
    governing_token_owner: &Pubkey,
    accounts: &VerifyCnftInfo,
    params: &CompressedNftAsset,
    unique_asset_ids: &mut Vec<Pubkey>,
) -> (r: Result<(u64, Pubkey), NftVoterError>)
    requires
        registrar.wf(),
        metadata_bounded(params.metadata@),
    ensures
        r == spec_resolve_cnft_vote_weight(
            *registrar,
            *governing_token_owner,
            *accounts,
            *params,
            old(unique_asset_ids)@,
        ),
        r is Err ==> final(unique_asset_ids)@ == old(unique_asset_ids)@,
        r is Ok ==> final(unique_asset_ids)@ == old(unique_asset_ids)@.push(params.asset_id),
{
    let asset_id = match verify_cnft_info(accounts, params) {
        Ok(id) => id,
        Err(e) => {
            return Err(e);
        },
    };
    if !pubkey_eq(&accounts.leaf_owner, governing_token_owner) {
        return Err(NftVoterError::VoterDoesNotOwnNft);
    }
    let weight = match registrar.resolve_collection_weight(
        &params.metadata.collection_key,
        params.metadata.collection_verified,
    ) {
        Ok(w) => w,
        Err(e) => {
            return Err(e);
        },
    };
    if contains_pubkey(unique_asset_ids, &asset_id) {
        return Err(NftVoterError::DuplicatedNftDetected);
    }
    unique_asset_ids.push(asset_id);
    Ok((weight, asset_id))
}

/// A directly stored (non-compressed) NFT holding: the voter's token
/// account for one mint.
#[derive(Clone, Debug)]
pub struct NftTokenAccount {
    pub mint: Pubkey,
    pub owner: Pubkey,
    pub amount: u64,
}

/// The metadata account of a directly stored NFT: which mint it describes
/// and the collection membership it carries.
#[derive(Clone, Debug)]
pub struct NftMetadataAccount {
    pub mint: Pubkey,
    pub collection_key: Pubkey,
    pub collection_verified: bool,
}

/// What resolving one directly stored NFT returns: the voter must hold
/// exactly one unit of the mint, the metadata must describe that mint, the
/// collection must be verified and configured, and the mint must not have
/// been resolved earlier in the same call.
pub open spec fn spec_resolve_nft_vote_weight_and_mint(
    registrar: Registrar,
    governing_token_owner: Pubkey,
    nft_info: NftTokenAccount,
    nft_metadata: NftMetadataAccount,
    seen: Seq<Pubkey>,
) -> Result<(u64, Pubkey), NftVoterError> {
    if !(nft_info.owner == governing_token_owner && nft_info.amount == 1) {
        Err(NftVoterError::VoterDoesNotOwnNft)
    } else if nft_metadata.mint != nft_info.mint {
        Err(NftVoterError::TokenMetadataDoesNotMatch)
    } else if !nft_metadata.collection_verified {
        Err(NftVoterError::CollectionMustBeVerified)
    } else if !has_collection(registrar.collection_configs@, nft_metadata.collection_key) {
        Err(NftVoterError::CollectionNotFound)
    } else if seen.contains(nft_info.mint) {
        Err(NftVoterError::DuplicatedNftDetected)
    } else {
        Ok(
            (
                config_of(registrar.collection_configs@, nft_metadata.collection_key).weight,
                nft_info.mint,
            ),
        )
    }
}

/// Resolves one directly stored NFT to its voting weight and mint. On
/// success the mint is added to the within-call list; on failure nothing
/// changes.
pub fn resolve_nft_vote_weight_and_mint(
    registrar: &Registrar,
    governing_token_owner: &Pubkey,
    nft_info: &NftTokenAccount,
    nft_metadata: &NftMetadataAccount,
    unique_nft_mints: &mut Vec<Pubkey>,
) -> (r: Result<(u64, Pubkey), NftVoterError>)
    requires
        registrar.wf(),
    ensures
        r == spec_resolve_nft_vote_weight_and_mint(
            *registrar,
            *governing_token_owner,
            *nft_info,
            *nft_metadata,
            old(unique_nft_mints)@,
        ),
        r is Err ==> final(unique_nft_mints)@ == old(unique_nft_mints)@,
        r is Ok ==> final(unique_nft_mints)@ == old(unique_nft_mints)@.push(nft_info.mint),
{
    if !(pubkey_eq(&nft_info.owner, governing_token_owner) && nft_info.amount == 1) {
        return Err(NftVoterError::VoterDoesNotOwnNft);
    }
    if !pubkey_eq(&nft_metadata.mint, &nft_info.mint) {
        return Err(NftVoterError::TokenMetadataDoesNotMatch);
    }
    let weight = match registrar.resolve_collection_weight(
        &nft_metadata.collection_key,
        nft_metadata.collection_verified,
    ) {
        Ok(w) => w,
        Err(e) => {
            return Err(e);
        },
    };
    if contains_pubkey(unique_nft_mints, &nft_info.mint) {
        return Err(NftVoterError::DuplicatedNftDetected);
    }
    unique_nft_mints.push(nft_info.mint);
    Ok((weight, nft_info.mint))
}

} // verus!
