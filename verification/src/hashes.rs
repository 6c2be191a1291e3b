//! The cryptographic hashes the verifier rests on. Each hash is an outside
//! computation (keccak-256 and the compressed-asset leaf schema); its result
//! is given a name, and the library's contracts speak of those names.

use vstd::prelude::*;
use crate::nft_metadata::{CompressedNftMetadata, CompressedNftMetadataView, metadata_bounded};
use crate::pubkey::{Node, Pubkey};
use mpl_bubblegum::types::{Collection, Creator, LeafSchema, MetadataArgs, TokenProgramVersion, TokenStandard};
use solana_program::pubkey::Pubkey as ProgramPubkey;

verus! {

/// The keccak-256 hash of two tree nodes laid side by side: the parent node
/// of a Merkle tree.
pub uninterp spec fn node_hash_of(left: Node, right: Node) -> Node;

/// The leaf value committed into the tree for one compressed asset.
pub uninterp spec fn leaf_hash_of(
    id: Pubkey,
    owner: Pubkey,
    delegate: Pubkey,
    nonce: u64,
    data_hash: Node,
    creator_hash: Node,
) -> Node;

/// The content hash of an asset's descriptive fields.
pub uninterp spec fn metadata_hash_of(m: CompressedNftMetadataView) -> Node;

/// The canonical asset id derived from the tree address and the leaf nonce.
pub uninterp spec fn asset_id_of(tree: Pubkey, nonce: u64) -> Pubkey;

/// Relies on solana_program::keccak::hashv: the digest depends on the
/// concatenated input bytes alone.
#[verifier::external_body]
pub(crate) fn keccak_pair(left: &Node, right: &Node) -> (r: Node)
    ensures
        r == node_hash_of(*left, *right),
{
    solana_program::keccak::hashv(&[left.as_slice(), right.as_slice()]).to_bytes()
}

/// Relies on mpl_bubblegum's LeafSchema::V1 hash: keccak-256 over the schema
/// version, asset id, owner, delegate, nonce, data hash and creator hash,
/// and nothing else.
#[verifier::external_body]
pub(crate) fn leaf_schema_hash(
    id: &Pubkey,
    owner: &Pubkey,
    delegate: &Pubkey,
    nonce: u64,
    data_hash: &Node,
    creator_hash: &Node,
) -> (r: Node)
    ensures
        r == leaf_hash_of(*id, *owner, *delegate, nonce, *data_hash, *creator_hash),
{
    LeafSchema::V1 {
        id: ProgramPubkey::new_from_array(*id),
        owner: ProgramPubkey::new_from_array(*owner),
        delegate: ProgramPubkey::new_from_array(*delegate),
        nonce,
        data_hash: *data_hash,
        creator_hash: *creator_hash,
    }
    .hash()
}

/// Relies on mpl_bubblegum::hash::hash_metadata: keccak-256 over the
/// serialized metadata, hashed again with the royalty basis points. The
/// metadata always carries a collection entry, a NonFungible token standard,
/// no uses and the original token program version, so the digest depends on
/// the modeled fields alone; with the length bounds the serialization cannot
/// fail.
#[verifier::external_body]
pub(crate) fn hash_metadata_args(m: &CompressedNftMetadata) -> (r: Node)
    requires
        metadata_bounded(m@),
    ensures
        r == metadata_hash_of(m@),
{
    let creators = m.creators.iter().map(|c| Creator {
        address: ProgramPubkey::new_from_array(c.address), verified: c.verified, share: c.share,
    }).collect();
    let args = MetadataArgs {
        name: m.name.clone(), symbol: m.symbol.clone(), uri: m.uri.clone(),
        seller_fee_basis_points: m.seller_fee_basis_points,
        primary_sale_happened: m.primary_sale_happened, is_mutable: m.is_mutable,
        edition_nonce: m.edition_nonce, token_standard: Some(TokenStandard::NonFungible),
        collection: Some(Collection { verified: m.collection_verified, key: ProgramPubkey::new_from_array(m.collection_key) }),
        uses: None, token_program_version: TokenProgramVersion::Original, creators,
    };
    mpl_bubblegum::hash::hash_metadata(&args).unwrap()
}

/// Relies on mpl_bubblegum::utils::get_asset_id: the canonical asset id is
/// derived from the tree address and the nonce alone. The derivation aborts
/// only in the statistically improbable case that no bump seed yields an
/// address, as the asset-id scheme itself does.
#[verifier::external_body]
pub(crate) fn get_asset_id(tree: &Pubkey, nonce: u64) -> (r: Pubkey)
    ensures
        r == asset_id_of(*tree, nonce),
{
    mpl_bubblegum::utils::get_asset_id(&ProgramPubkey::new_from_array(*tree), nonce).to_bytes()
}

/// The parent of two sibling nodes. Off-chain callers use this to assemble
/// the tree whose root a membership proof is checked against.
pub fn hash_node_pair(left: &Node, right: &Node) -> (r: Node)
    ensures
        r == node_hash_of(*left, *right),
{
    keccak_pair(left, right)
}

/// The leaf value of one compressed asset, for off-chain claim assembly.
pub fn compute_leaf_hash(
    id: &Pubkey,
    owner: &Pubkey,
    delegate: &Pubkey,
    nonce: u64,
    data_hash: &Node,
    creator_hash: &Node,
) -> (r: Node)
    ensures
        r == leaf_hash_of(*id, *owner, *delegate, nonce, *data_hash, *creator_hash),
{
    leaf_schema_hash(id, owner, delegate, nonce, data_hash, creator_hash)
}

/// The content hash of the given metadata, for off-chain claim assembly.
pub fn compute_metadata_hash(m: &CompressedNftMetadata) -> (r: Node)
    requires
        metadata_bounded(m@),
    ensures
        r == metadata_hash_of(m@),
{
    hash_metadata_args(m)
}

/// The canonical asset id of the leaf at the given nonce of the given tree.
pub fn compute_asset_id(tree: &Pubkey, nonce: u64) -> (r: Pubkey)
    ensures
        r == asset_id_of(*tree, nonce),
{
    get_asset_id(tree, nonce)
}

} // verus!
