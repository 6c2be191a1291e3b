//! Governance voting weight from NFT ownership.
//!
//! The library verifies that a claimed non-fungible asset is genuinely owned
//! by a voter and belongs to a configured collection, resolves the asset to a
//! numeric voting weight, and guarantees that each (proposal, asset) pair
//! contributes weight at most once. Host-ledger concerns (account creation,
//! rent, signatures) stay outside; the library works on plain values.

pub mod cast_nft_vote;
pub mod create_cnft_action_ticket;
pub mod create_nft_action_ticket;
pub mod error;
pub mod hashes;
pub mod merkle;
pub mod nft_action_ticket;
pub mod nft_metadata;
pub mod nft_vote_record;
pub mod pubkey;
pub mod registrar;
pub mod resolver;
pub mod serialization;
pub mod tools;
pub mod update_voter_weight_record;
pub mod verify_cnft_info;
pub mod voter_weight_record;
