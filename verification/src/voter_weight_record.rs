//! The externally visible weight records. A voter weight record is created
//! once per voter and then mutated by vote-casting and finalize operations;
//! it is a truthful statement about ownership only as of the slot stored in
//! its expiry, so consumers must check that expiry against the current slot.

use vstd::prelude::*;
use crate::pubkey::Pubkey;

verus! {

/// The governance action a weight record is valid for.
#[derive(Clone, Copy, PartialEq, Eq, Structural, Debug)]
pub enum VoterWeightAction {
    CastVote,
    CommentProposal,
    CreateGovernance,
    CreateProposal,
    SignOffProposal,
}

/// A voter's resolved governance weight, stamped with the slot it was
/// computed at and the action (and, for vote-casting, the proposal) it may
/// be spent on.
#[derive(Clone, PartialEq, Debug)]
pub struct VoterWeightRecord {
    pub realm: Pubkey,
    pub governing_token_mint: Pubkey,
    pub governing_token_owner: Pubkey,
    pub voter_weight: u64,
    pub voter_weight_expiry: Option<u64>,
    pub weight_action: Option<VoterWeightAction>,
    pub weight_action_target: Option<Pubkey>,
}

/// The record of the owner's membership in a realm, kept by the governance
/// collaborator: who owns the governing tokens and who may vote on the
/// owner's behalf.
#[derive(Clone, Debug)]
pub struct TokenOwnerRecord {
    pub realm: Pubkey,
    pub governing_token_mint: Pubkey,
    pub governing_token_owner: Pubkey,
    pub governance_delegate: Option<Pubkey>,
}

/// The ceiling of attainable weight in a realm, maintained alongside the
/// registrar's collection configurations.
#[derive(Clone, PartialEq, Debug)]
pub struct MaxVoterWeightRecord {
    pub realm: Pubkey,
    pub governing_token_mint: Pubkey,
    pub max_voter_weight: u64,
    pub max_voter_weight_expiry: Option<u64>,
}

/// A fresh record for one voter: no weight, no action, no expiry.
pub fn create_voter_weight_record(
    realm: Pubkey,
    governing_token_mint: Pubkey,
    governing_token_owner: Pubkey,
) -> (r: VoterWeightRecord)
    ensures
        r.realm == realm,
        r.governing_token_mint == governing_token_mint,
        r.governing_token_owner == governing_token_owner,
        r.voter_weight == 0,
        r.voter_weight_expiry is None,
        r.weight_action is None,
        r.weight_action_target is None,
{
    VoterWeightRecord {
        realm,
        governing_token_mint,
        governing_token_owner,
        voter_weight: 0,
        voter_weight_expiry: None,
        weight_action: None,
        weight_action_target: None,
    }
}

/// A fresh maximum-weight record for one realm and mint.
pub fn create_max_voter_weight_record(realm: Pubkey, governing_token_mint: Pubkey) -> (r:
    MaxVoterWeightRecord)
    ensures
        r.realm == realm,
        r.governing_token_mint == governing_token_mint,
        r.max_voter_weight == 0,
        r.max_voter_weight_expiry is None,
{
    MaxVoterWeightRecord { realm, governing_token_mint, max_voter_weight: 0, max_voter_weight_expiry: None }
}

} // verus!
