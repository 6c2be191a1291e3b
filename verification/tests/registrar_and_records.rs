//! The collection registry and the record constructors: configuration is
//! authority-gated, superseding, bounded by the capacity set at creation,
//! and keeps the maximum-weight ceiling in step; lookups trust no
//! unverified collection flag.

use nft_voter::error::NftVoterError;
use nft_voter::nft_action_ticket::{NftActionTicket, NftTicketTable};
use nft_voter::registrar::{configure_collection, create_registrar};
use nft_voter::voter_weight_record::{
    create_max_voter_weight_record, create_voter_weight_record,
};

fn key(b: u8) -> [u8; 32] {
    [b; 32]
}

#[test]
fn create_registrar_starts_empty() {
    let registrar = create_registrar(key(0), key(1), key(2), 10);
    assert_eq!(registrar.realm, key(1));
    assert_eq!(registrar.governing_token_mint, key(2));
    assert_eq!(registrar.max_collections, 10);
    assert!(registrar.collection_configs.is_empty());
}

#[test]
fn create_voter_weight_record_is_empty_state() {
    let vwr = create_voter_weight_record(key(1), key(2), key(3));
    assert_eq!(vwr.voter_weight, 0);
    assert_eq!(vwr.voter_weight_expiry, None);
    assert_eq!(vwr.weight_action, None);
    assert_eq!(vwr.weight_action_target, None);
}

#[test]
fn configure_collection_updates_weight_ceiling() {
    let mut registrar = create_registrar(key(0), key(1), key(2), 10);
    let mut max_record = create_max_voter_weight_record(key(1), key(2));
    configure_collection(&mut registrar, &mut max_record, true, key(9), 3, 11).unwrap();
    assert_eq!(max_record.max_voter_weight, 33);
    assert_eq!(max_record.max_voter_weight_expiry, None);
    configure_collection(&mut registrar, &mut max_record, true, key(10), 5, 7).unwrap();
    assert_eq!(registrar.collection_configs.len(), 2);
    assert_eq!(max_record.max_voter_weight, 33 + 35);
}

#[test]
fn configure_collection_supersedes_an_entry() {
    let mut registrar = create_registrar(key(0), key(1), key(2), 10);
    let mut max_record = create_max_voter_weight_record(key(1), key(2));
    configure_collection(&mut registrar, &mut max_record, true, key(9), 3, 11).unwrap();
    configure_collection(&mut registrar, &mut max_record, true, key(9), 4, 2).unwrap();
    assert_eq!(registrar.collection_configs.len(), 1);
    assert_eq!(registrar.collection_configs[0].weight, 4);
    assert_eq!(registrar.collection_configs[0].size, 2);
    assert_eq!(max_record.max_voter_weight, 8);
    assert_eq!(registrar.resolve_collection_weight(&key(9), true), Ok(4));
}

#[test]
fn configure_collection_requires_the_realm_authority() {
    let mut registrar = create_registrar(key(0), key(1), key(2), 10);
    let mut max_record = create_max_voter_weight_record(key(1), key(2));
    let err =
        configure_collection(&mut registrar, &mut max_record, false, key(9), 3, 11).unwrap_err();
    assert_eq!(err, NftVoterError::InvalidRealmAuthority);
    assert!(registrar.collection_configs.is_empty());
}

#[test]
fn configure_collection_respects_the_capacity() {
    let mut registrar = create_registrar(key(0), key(1), key(2), 1);
    let mut max_record = create_max_voter_weight_record(key(1), key(2));
    configure_collection(&mut registrar, &mut max_record, true, key(9), 3, 11).unwrap();
    let err =
        configure_collection(&mut registrar, &mut max_record, true, key(10), 5, 7).unwrap_err();
    assert_eq!(err, NftVoterError::MaximumCollectionsReached);
    assert_eq!(registrar.collection_configs.len(), 1);
    assert_eq!(max_record.max_voter_weight, 33);
    // superseding the existing entry is still possible at capacity
    configure_collection(&mut registrar, &mut max_record, true, key(9), 6, 11).unwrap();
    assert_eq!(max_record.max_voter_weight, 66);
}

#[test]
fn configure_collection_reports_ceiling_overflow() {
    let mut registrar = create_registrar(key(0), key(1), key(2), 10);
    let mut max_record = create_max_voter_weight_record(key(1), key(2));
    let err = configure_collection(&mut registrar, &mut max_record, true, key(9), u64::MAX, 2)
        .unwrap_err();
    assert_eq!(err, NftVoterError::VoterWeightOverflow);
    assert!(registrar.collection_configs.is_empty());
    assert_eq!(max_record.max_voter_weight, 0);
}

#[test]
fn resolve_collection_weight_needs_a_verified_collection() {
    let mut registrar = create_registrar(key(0), key(1), key(2), 10);
    let mut max_record = create_max_voter_weight_record(key(1), key(2));
    configure_collection(&mut registrar, &mut max_record, true, key(9), 3, 11).unwrap();
    // even a configured collection with nonzero weight is rejected unverified
    assert_eq!(
        registrar.resolve_collection_weight(&key(9), false),
        Err(NftVoterError::CollectionMustBeVerified)
    );
    assert_eq!(registrar.resolve_collection_weight(&key(9), true), Ok(3));
    assert_eq!(
        registrar.resolve_collection_weight(&key(8), true),
        Err(NftVoterError::CollectionNotFound)
    );
}

#[test]
fn serialized_footprints_are_fixed() {
    assert_eq!(NftActionTicket::get_space(), 57);
    assert_eq!(NftTicketTable::get_space(11), 204 + 57 * 11);
    assert_eq!(NftTicketTable::get_space(0), 204);
}

#[test]
fn serialized_ticket_table_layout_is_exact() {
    let ticket = nft_voter::nft_action_ticket::NftActionTicket {
        nft_mint: key(50),
        weight: 3,
        expiry: Some(110),
    };
    let table = NftTicketTable {
        registrar: key(4),
        governing_token_owner: key(3),
        action: nft_voter::voter_weight_record::VoterWeightAction::CastVote,
        max_nfts: 5,
        nft_tickets: vec![ticket],
    };
    let bytes = nft_voter::serialization::serialize_nft_tickets_table(&table);
    let mut expected: Vec<u8> = Vec::new();
    expected.extend_from_slice(&key(4));
    expected.extend_from_slice(&key(3));
    expected.extend_from_slice(&1u32.to_le_bytes());
    expected.extend_from_slice(&key(50));
    expected.extend_from_slice(&3u64.to_le_bytes());
    expected.push(1);
    expected.extend_from_slice(&110u64.to_le_bytes());
    expected.extend_from_slice(&[0u8; 128]);
    assert_eq!(bytes, expected);
}

#[test]
fn serialized_records_lay_out_their_fields() {
    let record = nft_voter::nft_vote_record::CnftWeightRecord { nft_owner: key(3), weight: 7 };
    let bytes = nft_voter::serialization::serialize_cnft_weight_record(&record);
    let mut expected: Vec<u8> = Vec::new();
    expected.extend_from_slice(&key(3));
    expected.extend_from_slice(&7u64.to_le_bytes());
    assert_eq!(bytes, expected);

    let marker = nft_voter::nft_vote_record::CompressedNftVoteRecord {
        proposal: key(5),
        asset_id: key(50),
        governing_token_owner: key(3),
    };
    let disc = [7u8; 8];
    let bytes = nft_voter::serialization::serialize_compressed_nft_vote_record(&disc, &marker);
    let mut expected: Vec<u8> = Vec::new();
    expected.extend_from_slice(&disc);
    expected.extend_from_slice(&key(5));
    expected.extend_from_slice(&key(50));
    expected.extend_from_slice(&key(3));
    assert_eq!(bytes, expected);

    // a ticket without an expiry serializes with a zero tag
    let stale = nft_voter::nft_action_ticket::NftActionTicket {
        nft_mint: key(51),
        weight: 1,
        expiry: None,
    };
    let mut bytes: Vec<u8> = Vec::new();
    nft_voter::serialization::serialize_nft_action_ticket(&stale, &mut bytes);
    assert_eq!(bytes.len(), 32 + 8 + 1);
    assert_eq!(bytes[40], 0);
}
