//! The membership verifier: given a claimed asset descriptor and a
//! cryptographic proof, recomputes the canonical asset id, the content hash
//! and a tree-membership root, and either confirms or rejects the claim.
//! Pure verification: no state, no side effects.

use vstd::prelude::*;
use crate::error::NftVoterError;
use crate::hashes::{
    asset_id_of, compute_asset_id, compute_leaf_hash, compute_metadata_hash, leaf_hash_of,
    metadata_hash_of,
};
use crate::merkle::{recompute_root, root_of};
use crate::nft_metadata::{metadata_bounded, CompressedNftMetadata};
use crate::pubkey::{pubkey_eq, Node, Pubkey};

verus! {

/// One claimed compressed asset: the untrusted input describing the asset,
/// with the membership proof for it. Ephemeral; it exists only for the
/// duration of one resolution call.
#[derive(Clone, Debug)]
pub struct CompressedNftAsset {
    /// The canonical asset id the caller claims.
    pub asset_id: Pubkey,
    /// The descriptive fields whose hash is committed into the tree.
    pub metadata: CompressedNftMetadata,
    /// The tree root the membership proof is checked against.
    pub root: Node,
    /// The claimed content hash of the metadata.
    pub data_hash: Node,
    /// The claimed creator hash; it is not recomputed here, but it is part
    /// of the leaf, so a wrong value fails the proof check.
    pub creator_hash: Node,
    /// The leaf nonce the asset id is derived from.
    pub nonce: u64,
    /// The leaf position within its tree level.
    pub index: u32,
    /// The sibling path from the leaf up to the root.
    pub proof: Vec<Node>,
}

/// What the membership verifier reads about the call: who signed, and which
/// tree the claim is made against.
#[derive(Clone, Debug)]
pub struct VerifyCnftInfo {
    pub leaf_owner: Pubkey,
    pub leaf_owner_is_signer: bool,
    pub leaf_delegate: Pubkey,
    pub leaf_delegate_is_signer: bool,
    pub merkle_tree: Pubkey,
}

/// The owner or the delegate of the leaf signed the call.
pub open spec fn claim_signed(accounts: VerifyCnftInfo) -> bool {
    accounts.leaf_owner_is_signer || accounts.leaf_delegate_is_signer
}

/// The leaf value reconstructed from the claim.
pub open spec fn claim_leaf(accounts: VerifyCnftInfo, params: CompressedNftAsset) -> Node {
    leaf_hash_of(
        params.asset_id,
        accounts.leaf_owner,
        accounts.leaf_delegate,
        params.nonce,
        params.data_hash,
        params.creator_hash,
    )
}

/// What verification returns: each check in order, and the canonical asset
/// id when all of them pass.
pub open spec fn spec_verify_cnft_info(
    accounts: VerifyCnftInfo,
    params: CompressedNftAsset,
) -> Result<Pubkey, NftVoterError> {
    if !claim_signed(accounts) {
        Err(NftVoterError::LeafAuthorityMustSign)
    } else if params.asset_id != asset_id_of(accounts.merkle_tree, params.nonce) {
        Err(NftVoterError::InvalidAssetId)
    } else if params.data_hash != metadata_hash_of(params.metadata@) {
        Err(NftVoterError::InvalidMetadata)
    } else if params.root != root_of(
        claim_leaf(accounts, params),
        params.index as nat,
        params.proof@,
    ) {
        Err(NftVoterError::InvalidProof)
    } else {
        Ok(params.asset_id)
    }
}

/// Verifies one claimed asset: the owner or delegate must have signed; the
/// canonical asset id recomputed from the tree and nonce must equal the
/// claimed one; the content hash recomputed from the descriptive fields
/// must equal the claimed one (the anti-forgery check: the authoritative
/// metadata is not stored on-chain, only its hash); and the root recomputed
/// from the reconstructed leaf and the proof path must equal the claimed
/// tree root. No side effects; failure is reported, never retried.
pub fn verify_cnft_info(accounts: &VerifyCnftInfo, params: &CompressedNftAsset) -> (r: Result<
    Pubkey,
    NftVoterError,
>)
    requires
        metadata_bounded(params.metadata@),
    ensures
        r == spec_verify_cnft_info(*accounts, *params),
{
    if !(accounts.leaf_owner_is_signer || accounts.leaf_delegate_is_signer) {
        return Err(NftVoterError::LeafAuthorityMustSign);
    }
    let asset_id = compute_asset_id(&accounts.merkle_tree, params.nonce);
    if !pubkey_eq(&asset_id, &params.asset_id) {
        return Err(NftVoterError::InvalidAssetId);
    }
    let data_hash = compute_metadata_hash(&params.metadata);
    if !pubkey_eq(&data_hash, &params.data_hash) {
        return Err(NftVoterError::InvalidMetadata);
    }
    let leaf = compute_leaf_hash(
        &asset_id,
        &accounts.leaf_owner,
        &accounts.leaf_delegate,
        params.nonce,
        &params.data_hash,
        &params.creator_hash,
    );
    let root = recompute_root(&leaf, params.index, &params.proof);
    if !pubkey_eq(&root, &params.root) {
        return Err(NftVoterError::InvalidProof);
    }
    Ok(asset_id)
}

} // verus!
