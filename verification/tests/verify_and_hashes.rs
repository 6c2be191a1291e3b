//! The membership verifier against the real hashers: the library's hashes
//! must agree with the outside crates they rely on, and verification must
//! accept exactly the claims whose hashes and proofs check out.

use nft_voter::error::NftVoterError;
use nft_voter::hashes::{compute_asset_id, compute_leaf_hash, compute_metadata_hash, hash_node_pair};
use nft_voter::merkle::recompute_root;
use nft_voter::nft_action_ticket::get_nft_tickets_table_address;
use nft_voter::nft_metadata::{CompressedNftMetadata, NftCreator};
use nft_voter::tools::PROGRAM_ID;
use nft_voter::verify_cnft_info::{verify_cnft_info, CompressedNftAsset, VerifyCnftInfo};
use solana_program::pubkey::Pubkey as SolPubkey;

fn key(b: u8) -> [u8; 32] {
    [b; 32]
}

fn sample_metadata(collection: [u8; 32], verified: bool) -> CompressedNftMetadata {
    CompressedNftMetadata {
        name: "Compressed Voter Pass".to_string(),
        symbol: "CVP".to_string(),
        uri: "https://example.org/asset.json".to_string(),
        seller_fee_basis_points: 500,
        primary_sale_happened: false,
        is_mutable: true,
        edition_nonce: Some(0),
        collection_key: collection,
        collection_verified: verified,
        creators: vec![NftCreator { address: key(41), verified: true, share: 100 }],
    }
}

fn valid_claim(
    tree: [u8; 32],
    owner: [u8; 32],
    nonce: u64,
    collection: [u8; 32],
) -> (VerifyCnftInfo, CompressedNftAsset) {
    let delegate = owner;
    let metadata = sample_metadata(collection, true);
    let asset_id = compute_asset_id(&tree, nonce);
    let data_hash = compute_metadata_hash(&metadata);
    let creator_hash = key(77);
    let leaf = compute_leaf_hash(&asset_id, &owner, &delegate, nonce, &data_hash, &creator_hash);
    let sibling = key(78);
    let root = hash_node_pair(&leaf, &sibling);
    let accounts = VerifyCnftInfo {
        leaf_owner: owner,
        leaf_owner_is_signer: true,
        leaf_delegate: delegate,
        leaf_delegate_is_signer: false,
        merkle_tree: tree,
    };
    let params = CompressedNftAsset {
        asset_id,
        metadata,
        root,
        data_hash,
        creator_hash,
        nonce,
        index: 0,
        proof: vec![sibling],
    };
    (accounts, params)
}

#[test]
fn node_pair_hash_matches_keccak() {
    let l = key(1);
    let r = key(2);
    let h = hash_node_pair(&l, &r);
    let expected = solana_program::keccak::hashv(&[&l, &r]).to_bytes();
    assert_eq!(h, expected);
    assert_ne!(h, l);
    assert_ne!(h, r);
    assert_ne!(h, hash_node_pair(&r, &l));
}

#[test]
fn asset_id_matches_reference_derivation() {
    let tree = key(7);
    let got = compute_asset_id(&tree, 3);
    let expected =
        mpl_bubblegum::utils::get_asset_id(&SolPubkey::new_from_array(tree), 3).to_bytes();
    assert_eq!(got, expected);
    assert_ne!(got, compute_asset_id(&tree, 4));
    assert_ne!(got, tree);
}

#[test]
fn leaf_hash_matches_reference_schema() {
    let id = key(11);
    let owner = key(12);
    let delegate = key(13);
    let data_hash = key(14);
    let creator_hash = key(15);
    let got = compute_leaf_hash(&id, &owner, &delegate, 9, &data_hash, &creator_hash);
    let expected = mpl_bubblegum::types::LeafSchema::V1 {
        id: SolPubkey::new_from_array(id),
        owner: SolPubkey::new_from_array(owner),
        delegate: SolPubkey::new_from_array(delegate),
        nonce: 9,
        data_hash,
        creator_hash,
    }
    .hash();
    assert_eq!(got, expected);
    assert_ne!(got, compute_leaf_hash(&id, &owner, &delegate, 10, &data_hash, &creator_hash));
}

#[test]
fn metadata_hash_matches_reference_hasher() {
    let md = sample_metadata(key(9), true);
    let got = compute_metadata_hash(&md);
    let args = mpl_bubblegum::types::MetadataArgs {
        name: "Compressed Voter Pass".to_string(),
        symbol: "CVP".to_string(),
        uri: "https://example.org/asset.json".to_string(),
        seller_fee_basis_points: 500,
        primary_sale_happened: false,
        is_mutable: true,
        edition_nonce: Some(0),
        token_standard: Some(mpl_bubblegum::types::TokenStandard::NonFungible),
        collection: Some(mpl_bubblegum::types::Collection {
            verified: true,
            key: SolPubkey::new_from_array(key(9)),
        }),
        uses: None,
        token_program_version: mpl_bubblegum::types::TokenProgramVersion::Original,
        creators: vec![mpl_bubblegum::types::Creator {
            address: SolPubkey::new_from_array(key(41)),
            verified: true,
            share: 100,
        }],
    };
    let expected = mpl_bubblegum::hash::hash_metadata(&args).unwrap();
    assert_eq!(got, expected);
    let mut md2 = sample_metadata(key(9), true);
    md2.seller_fee_basis_points = 501;
    assert_ne!(compute_metadata_hash(&md2), expected);
    let md3 = sample_metadata(key(9), false);
    assert_ne!(compute_metadata_hash(&md3), expected);
}

#[test]
fn tickets_table_address_matches_reference_derivation() {
    let registrar = key(21);
    let owner = key(22);
    let (got_key, got_bump) =
        get_nft_tickets_table_address("nft-CastVote-tickets", &registrar, &owner).unwrap();
    let (expected, bump) = SolPubkey::try_find_program_address(
        &[b"nft-CastVote-tickets", &registrar, &owner],
        &SolPubkey::new_from_array(PROGRAM_ID),
    )
    .unwrap();
    assert_eq!(got_key, expected.to_bytes());
    assert_eq!(got_bump, bump);
    let checked =
        nft_voter::tools::get_nft_tickets_table_address("nft-CastVote-tickets", &registrar, &owner, bump)
            .unwrap();
    assert_eq!(checked, expected.to_bytes());
}

#[test]
fn recompute_root_walks_a_four_leaf_tree() {
    let leaves = [key(31), key(32), key(33), key(34)];
    let p01 = hash_node_pair(&leaves[0], &leaves[1]);
    let p23 = hash_node_pair(&leaves[2], &leaves[3]);
    let root = hash_node_pair(&p01, &p23);
    assert_eq!(recompute_root(&leaves[0], 0, &vec![leaves[1], p23]), root);
    assert_eq!(recompute_root(&leaves[1], 1, &vec![leaves[0], p23]), root);
    assert_eq!(recompute_root(&leaves[2], 2, &vec![leaves[3], p01]), root);
    assert_eq!(recompute_root(&leaves[3], 3, &vec![leaves[2], p01]), root);
    assert_ne!(recompute_root(&leaves[0], 1, &vec![leaves[1], p23]), root);
    assert_eq!(recompute_root(&leaves[0], 0, &vec![]), leaves[0]);
}

#[test]
fn verify_cnft_info_accepts_a_valid_claim() {
    let (accounts, params) = valid_claim(key(100), key(3), 0, key(9));
    let asset_id = verify_cnft_info(&accounts, &params).unwrap();
    assert_eq!(asset_id, params.asset_id);
}

#[test]
fn verify_cnft_info_requires_a_signer() {
    let (mut accounts, params) = valid_claim(key(100), key(3), 0, key(9));
    accounts.leaf_owner_is_signer = false;
    accounts.leaf_delegate_is_signer = false;
    let err = verify_cnft_info(&accounts, &params).unwrap_err();
    assert_eq!(err, NftVoterError::LeafAuthorityMustSign);
}

#[test]
fn verify_cnft_info_rejects_a_wrong_asset_id() {
    let (accounts, mut params) = valid_claim(key(100), key(3), 0, key(9));
    params.asset_id = key(99);
    let err = verify_cnft_info(&accounts, &params).unwrap_err();
    assert_eq!(err, NftVoterError::InvalidAssetId);
}

#[test]
fn verify_cnft_info_rejects_a_forged_content_hash() {
    let (accounts, mut params) = valid_claim(key(100), key(3), 0, key(9));
    params.metadata.name = "Forged Voter Pass".to_string();
    let err = verify_cnft_info(&accounts, &params).unwrap_err();
    assert_eq!(err, NftVoterError::InvalidMetadata);
}

#[test]
fn verify_cnft_info_rejects_a_wrong_root() {
    let (accounts, mut params) = valid_claim(key(100), key(3), 0, key(9));
    params.root = key(1);
    let err = verify_cnft_info(&accounts, &params).unwrap_err();
    assert_eq!(err, NftVoterError::InvalidProof);
}

#[test]
fn verify_cnft_info_rejects_a_wrong_creator_hash() {
    let (accounts, mut params) = valid_claim(key(100), key(3), 0, key(9));
    params.creator_hash = key(1);
    let err = verify_cnft_info(&accounts, &params).unwrap_err();
    assert_eq!(err, NftVoterError::InvalidProof);
}

#[test]
fn an_oversized_seed_derives_no_address() {
    let registrar = key(21);
    let owner = key(22);
    // a ticket type longer than the host's seed limit derives nothing
    let err = nft_voter::tools::get_nft_tickets_table_address(
        "a-ticket-type-well-beyond-the-seed-length-limit",
        &registrar,
        &owner,
        255,
    )
    .unwrap_err();
    assert_eq!(err, NftVoterError::InvalidSeeds);
}
