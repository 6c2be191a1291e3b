//! Vote-casting end to end: staging verified assets, admitting each into
//! the dedup ledger exactly once, accumulating weight per proposal, and
//! relinquishing markers.

use nft_voter::cast_nft_vote::{cast_nft_vote, CastNftVote};
use nft_voter::create_cnft_action_ticket::{create_cnft_action_ticket, CreateCnftActionTicket};
use nft_voter::error::NftVoterError;
use nft_voter::hashes::{compute_asset_id, compute_leaf_hash, compute_metadata_hash, hash_node_pair};
use nft_voter::nft_action_ticket::{NftActionTicket, NftTicketTable};
use nft_voter::nft_vote_record::NftVoteLedger;
use nft_voter::registrar::{configure_collection, create_registrar, Registrar};
use nft_voter::nft_metadata::{CompressedNftMetadata, NftCreator};
use nft_voter::verify_cnft_info::{CompressedNftAsset, VerifyCnftInfo};
use nft_voter::voter_weight_record::{
    create_max_voter_weight_record, create_voter_weight_record, TokenOwnerRecord,
    VoterWeightAction, VoterWeightRecord,
};

fn key(b: u8) -> [u8; 32] {
    [b; 32]
}

const REALM: [u8; 32] = [1u8; 32];
const MINT: [u8; 32] = [2u8; 32];
const OWNER: [u8; 32] = [3u8; 32];
const REGISTRAR_KEY: [u8; 32] = [4u8; 32];
const PROPOSAL: [u8; 32] = [5u8; 32];
const COLLECTION: [u8; 32] = [9u8; 32];

fn sample_metadata(collection: [u8; 32], verified: bool) -> CompressedNftMetadata {
    CompressedNftMetadata {
        name: "Compressed Voter Pass".to_string(),
        symbol: "CVP".to_string(),
        uri: "https://example.org/asset.json".to_string(),
        seller_fee_basis_points: 500,
        primary_sale_happened: false,
        is_mutable: true,
        edition_nonce: Some(0),
        collection_key: collection,
        collection_verified: verified,
        creators: vec![NftCreator { address: key(41), verified: true, share: 100 }],
    }
}

fn valid_claim(tree: [u8; 32], owner: [u8; 32]) -> (VerifyCnftInfo, CompressedNftAsset) {
    let metadata = sample_metadata(COLLECTION, true);
    let asset_id = compute_asset_id(&tree, 0);
    let data_hash = compute_metadata_hash(&metadata);
    let creator_hash = key(77);
    let leaf = compute_leaf_hash(&asset_id, &owner, &owner, 0, &data_hash, &creator_hash);
    let sibling = key(78);
    let root = hash_node_pair(&leaf, &sibling);
    let accounts = VerifyCnftInfo {
        leaf_owner: owner,
        leaf_owner_is_signer: true,
        leaf_delegate: owner,
        leaf_delegate_is_signer: false,
        merkle_tree: tree,
    };
    let params = CompressedNftAsset {
        asset_id,
        metadata,
        root,
        data_hash,
        creator_hash,
        nonce: 0,
        index: 0,
        proof: vec![sibling],
    };
    (accounts, params)
}

fn configured_registrar(weight: u64, size: u32) -> Registrar {
    let mut registrar = create_registrar(key(0), REALM, MINT, 10);
    let mut max_record = create_max_voter_weight_record(REALM, MINT);
    configure_collection(&mut registrar, &mut max_record, true, COLLECTION, weight, size)
        .unwrap();
    registrar
}

fn staged_vote_table(registrar: &Registrar, trees: &[[u8; 32]], now_slot: u64) -> NftTicketTable {
    let vwr = create_voter_weight_record(REALM, MINT, OWNER);
    let accounts = CreateCnftActionTicket {
        registrar_key: REGISTRAR_KEY,
        registrar: registrar.clone(),
        voter_weight_record: vwr,
    };
    let claims: Vec<_> = trees.iter().map(|t| valid_claim(*t, OWNER)).collect();
    let mut table: Option<NftTicketTable> = None;
    create_cnft_action_ticket(
        &accounts,
        &mut table,
        VoterWeightAction::CastVote,
        11,
        &claims,
        now_slot,
    )
    .unwrap();
    table.unwrap()
}

fn cast_accounts(registrar: Registrar, table: NftTicketTable, vwr: VoterWeightRecord) -> CastNftVote {
    CastNftVote {
        registrar_key: REGISTRAR_KEY,
        registrar,
        nft_tickets_table: table,
        voter_weight_record: vwr,
        voter_token_owner_record: TokenOwnerRecord {
            realm: REALM,
            governing_token_mint: MINT,
            governing_token_owner: OWNER,
            governance_delegate: None,
        },
        voter_authority: OWNER,
        voter_authority_is_signer: true,
    }
}

#[test]
fn cast_with_four_assets_counts_twelve_and_rejects_a_recast() {
    // collection configured with weight 3 and declared size 11; the voter
    // owns four valid assets in it
    let registrar = configured_registrar(3, 11);
    let table = staged_vote_table(&registrar, &[key(100), key(101), key(102), key(103)], 100);
    let vwr = create_voter_weight_record(REALM, MINT, OWNER);
    let mut accounts = cast_accounts(registrar, table, vwr);
    let mut ledger = NftVoteLedger::new();
    cast_nft_vote(&mut accounts, &mut ledger, PROPOSAL, 105).unwrap();
    assert_eq!(accounts.voter_weight_record.voter_weight, 12);
    assert_eq!(accounts.voter_weight_record.voter_weight_expiry, Some(105));
    assert_eq!(accounts.voter_weight_record.weight_action, Some(VoterWeightAction::CastVote));
    assert_eq!(accounts.voter_weight_record.weight_action_target, Some(PROPOSAL));
    assert_eq!(ledger.records.len(), 4);
    assert_eq!(ledger.records[0].proposal, PROPOSAL);
    assert_eq!(ledger.records[0].governing_token_owner, OWNER);

    // the same four assets against the same proposal fail and change nothing
    let err = cast_nft_vote(&mut accounts, &mut ledger, PROPOSAL, 106).unwrap_err();
    assert_eq!(err, NftVoterError::NftAlreadyVoted);
    assert_eq!(accounts.voter_weight_record.voter_weight, 12);
    assert_eq!(ledger.records.len(), 4);
}

#[test]
fn casting_accumulates_per_proposal_and_resets_elsewhere() {
    let registrar = configured_registrar(3, 11);
    let vwr = create_voter_weight_record(REALM, MINT, OWNER);
    let mut ledger = NftVoteLedger::new();

    // batch {A, B} for the proposal
    let table1 = staged_vote_table(&registrar, &[key(100), key(101)], 100);
    let mut accounts = cast_accounts(registrar.clone(), table1, vwr);
    cast_nft_vote(&mut accounts, &mut ledger, PROPOSAL, 101).unwrap();
    assert_eq!(accounts.voter_weight_record.voter_weight, 6);

    // batch {C} for the same proposal adds up
    accounts.nft_tickets_table = staged_vote_table(&registrar, &[key(102)], 102);
    cast_nft_vote(&mut accounts, &mut ledger, PROPOSAL, 103).unwrap();
    assert_eq!(accounts.voter_weight_record.voter_weight, 9);
    assert_eq!(ledger.records.len(), 3);

    // a different proposal starts a fresh total
    let other_proposal = key(6);
    accounts.nft_tickets_table = staged_vote_table(&registrar, &[key(103)], 104);
    cast_nft_vote(&mut accounts, &mut ledger, other_proposal, 105).unwrap();
    assert_eq!(accounts.voter_weight_record.voter_weight, 3);
    assert_eq!(accounts.voter_weight_record.weight_action_target, Some(other_proposal));
}

#[test]
fn a_batch_with_a_duplicate_asset_creates_no_marker() {
    let registrar = configured_registrar(3, 11);
    let ticket = NftActionTicket { nft_mint: key(50), weight: 3, expiry: Some(110) };
    let table = NftTicketTable {
        registrar: REGISTRAR_KEY,
        governing_token_owner: OWNER,
        action: VoterWeightAction::CastVote,
        max_nfts: 5,
        nft_tickets: vec![ticket, ticket],
    };
    let vwr = create_voter_weight_record(REALM, MINT, OWNER);
    let mut accounts = cast_accounts(registrar, table, vwr);
    let mut ledger = NftVoteLedger::new();
    let err = cast_nft_vote(&mut accounts, &mut ledger, PROPOSAL, 100).unwrap_err();
    assert_eq!(err, NftVoterError::DuplicatedNftDetected);
    assert_eq!(ledger.records.len(), 0);
    assert_eq!(accounts.voter_weight_record.voter_weight, 0);
}

#[test]
fn a_stale_ticket_cannot_vote() {
    let registrar = configured_registrar(3, 11);
    let table = staged_vote_table(&registrar, &[key(100)], 100);
    // tickets staged at slot 100 expire after slot 110
    let vwr = create_voter_weight_record(REALM, MINT, OWNER);
    let mut accounts = cast_accounts(registrar, table, vwr);
    let mut ledger = NftVoteLedger::new();
    let err = cast_nft_vote(&mut accounts, &mut ledger, PROPOSAL, 111).unwrap_err();
    assert_eq!(err, NftVoterError::NftTicketExpired);
    assert_eq!(ledger.records.len(), 0);
    // at the edge of the window the ticket still counts
    cast_nft_vote(&mut accounts, &mut ledger, PROPOSAL, 110).unwrap();
    assert_eq!(accounts.voter_weight_record.voter_weight, 3);
}

#[test]
fn relinquishing_reenables_the_same_asset() {
    let registrar = configured_registrar(3, 11);
    let table = staged_vote_table(&registrar, &[key(100)], 100);
    let asset_id = table.nft_tickets[0].nft_mint;
    let vwr = create_voter_weight_record(REALM, MINT, OWNER);
    let mut accounts = cast_accounts(registrar.clone(), table, vwr);
    let mut ledger = NftVoteLedger::new();
    cast_nft_vote(&mut accounts, &mut ledger, PROPOSAL, 101).unwrap();
    assert_eq!(ledger.records.len(), 1);
    assert_eq!(accounts.voter_weight_record.voter_weight, 3);

    // relinquishing removes the marker and resets the stored total
    assert!(ledger.relinquish_nft_vote(&PROPOSAL, &asset_id, &mut accounts.voter_weight_record));
    assert_eq!(ledger.records.len(), 0);
    assert_eq!(accounts.voter_weight_record.voter_weight, 0);
    assert_eq!(accounts.voter_weight_record.voter_weight_expiry, None);
    assert!(!ledger.relinquish_nft_vote(&PROPOSAL, &asset_id, &mut accounts.voter_weight_record));

    // the same asset can vote on the same proposal again, and the
    // relinquished weight is not double-counted: the total is 3, not 6
    accounts.nft_tickets_table = staged_vote_table(&registrar, &[key(100)], 102);
    cast_nft_vote(&mut accounts, &mut ledger, PROPOSAL, 103).unwrap();
    assert_eq!(ledger.records.len(), 1);
    assert_eq!(accounts.voter_weight_record.voter_weight, 3);
}

#[test]
fn a_delegate_may_cast_for_the_owner() {
    let registrar = configured_registrar(3, 11);
    let table = staged_vote_table(&registrar, &[key(100)], 100);
    let vwr = create_voter_weight_record(REALM, MINT, OWNER);
    let delegate = key(60);
    let mut accounts = cast_accounts(registrar, table, vwr);
    accounts.voter_token_owner_record.governance_delegate = Some(delegate);
    accounts.voter_authority = delegate;
    let mut ledger = NftVoteLedger::new();
    cast_nft_vote(&mut accounts, &mut ledger, PROPOSAL, 101).unwrap();
    assert_eq!(accounts.voter_weight_record.voter_weight, 3);
}

#[test]
fn a_stranger_cannot_cast_for_the_owner() {
    let registrar = configured_registrar(3, 11);
    let table = staged_vote_table(&registrar, &[key(100)], 100);
    let vwr = create_voter_weight_record(REALM, MINT, OWNER);
    let mut accounts = cast_accounts(registrar, table, vwr);
    accounts.voter_authority = key(61);
    let mut ledger = NftVoteLedger::new();
    let err = cast_nft_vote(&mut accounts, &mut ledger, PROPOSAL, 101).unwrap_err();
    assert_eq!(err, NftVoterError::GoverningTokenOwnerOrDelegateMustSign);
    assert_eq!(ledger.records.len(), 0);
}

#[test]
fn a_foreign_ticket_table_is_rejected() {
    let registrar = configured_registrar(3, 11);
    let mut table = staged_vote_table(&registrar, &[key(100)], 100);
    table.governing_token_owner = key(62);
    let vwr = create_voter_weight_record(REALM, MINT, OWNER);
    let mut accounts = cast_accounts(registrar, table, vwr);
    let mut ledger = NftVoteLedger::new();
    let err = cast_nft_vote(&mut accounts, &mut ledger, PROPOSAL, 101).unwrap_err();
    assert_eq!(err, NftVoterError::InvalidNftTicketTable);
}

#[test]
fn weight_accumulation_reports_overflow() {
    let mut registrar = create_registrar(key(0), REALM, MINT, 10);
    let mut max_record = create_max_voter_weight_record(REALM, MINT);
    configure_collection(&mut registrar, &mut max_record, true, COLLECTION, u64::MAX, 1)
        .unwrap();
    let vwr = create_voter_weight_record(REALM, MINT, OWNER);
    let mut ledger = NftVoteLedger::new();
    let table1 = staged_vote_table(&registrar, &[key(100)], 100);
    let mut accounts = cast_accounts(registrar.clone(), table1, vwr);
    cast_nft_vote(&mut accounts, &mut ledger, PROPOSAL, 101).unwrap();
    assert_eq!(accounts.voter_weight_record.voter_weight, u64::MAX);
    // a second asset for the same proposal cannot be added without overflow
    accounts.nft_tickets_table = staged_vote_table(&registrar, &[key(101)], 102);
    let err = cast_nft_vote(&mut accounts, &mut ledger, PROPOSAL, 103).unwrap_err();
    assert_eq!(err, NftVoterError::VoterWeightOverflow);
    assert_eq!(accounts.voter_weight_record.voter_weight, u64::MAX);
    assert_eq!(ledger.records.len(), 1);
}

#[test]
fn a_weight_record_of_another_realm_is_rejected() {
    let registrar = configured_registrar(3, 11);
    let table = staged_vote_table(&registrar, &[key(100)], 100);
    let vwr = create_voter_weight_record(key(63), MINT, OWNER);
    let mut accounts = cast_accounts(registrar, table, vwr);
    let mut ledger = NftVoteLedger::new();
    let err = cast_nft_vote(&mut accounts, &mut ledger, PROPOSAL, 101).unwrap_err();
    assert_eq!(err, NftVoterError::InvalidVoterWeightRecordRealm);
}

#[test]
fn a_token_owner_record_of_another_realm_is_rejected() {
    let registrar = configured_registrar(3, 11);
    let table = staged_vote_table(&registrar, &[key(100)], 100);
    let vwr = create_voter_weight_record(REALM, MINT, OWNER);
    let mut accounts = cast_accounts(registrar, table, vwr);
    accounts.voter_token_owner_record.realm = key(64);
    let mut ledger = NftVoteLedger::new();
    let err = cast_nft_vote(&mut accounts, &mut ledger, PROPOSAL, 101).unwrap_err();
    assert_eq!(err, NftVoterError::InvalidTokenOwnerRecord);
}

#[test]
fn a_weight_record_of_another_owner_is_rejected() {
    let registrar = configured_registrar(3, 11);
    let table = staged_vote_table(&registrar, &[key(100)], 100);
    let vwr = create_voter_weight_record(REALM, MINT, key(65));
    let mut accounts = cast_accounts(registrar, table, vwr);
    let mut ledger = NftVoteLedger::new();
    let err = cast_nft_vote(&mut accounts, &mut ledger, PROPOSAL, 101).unwrap_err();
    assert_eq!(err, NftVoterError::InvalidTokenOwnerForVoterWeightRecord);
}
