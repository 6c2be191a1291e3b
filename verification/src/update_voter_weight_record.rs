//! Finalizing staged weight for non-voting actions (creating a proposal or
//! a governance, commenting, signing off): the staged tickets are summed
//! into the voter weight record and the stage is consumed. This path is not
//! cumulative: each finalize call fully replaces the previous weight.
//! Vote-casting weight is computed by the dedup-ledger path instead.

use vstd::prelude::*;
use crate::create_cnft_action_ticket::table_matches;
use crate::error::NftVoterError;
use crate::nft_action_ticket::{
    mint_in_prefix, ticket_fresh, tickets_weight_sum, tickets_weight_sum_to, unique_mints,
    NftActionTicket, NftTicketTable,
};
use crate::pubkey::{pubkey_eq, Pubkey};
use crate::registrar::Registrar;
use crate::voter_weight_record::{VoterWeightAction, VoterWeightRecord};

verus! {

/// The accounts one finalize call reads and writes: the registrar (with its
/// address), the stage to consume, and the weight record to write.
pub struct UpdateVoterWeightRecord {
    pub registrar_key: Pubkey,
    pub registrar: Registrar,
    pub nft_tickets_table: NftTicketTable,
    pub voter_weight_record: VoterWeightRecord,
}

/// Walking the staged tickets in order from ticket `i` with running total
/// `acc`: a ticket whose asset already appeared is a duplicate, a ticket
/// whose expiry lies before `now_slot` is stale, and a total beyond 64 bits
/// is an overflow; the first failure stops the walk.
pub open spec fn spec_scan_stage_tickets(
    tickets: Seq<NftActionTicket>,
    now_slot: u64,
    i: int,
    acc: u64,
) -> Result<u64, NftVoterError>
    decreases tickets.len() - i,
{
    if i < 0 || i >= tickets.len() {
        Ok(acc)
    } else if exists|j: int| 0 <= j < i && tickets[j].nft_mint == tickets[i].nft_mint {
        Err(NftVoterError::DuplicatedNftDetected)
    } else if !ticket_fresh(tickets[i], now_slot) {
        Err(NftVoterError::NftTicketExpired)
    } else if acc + tickets[i].weight > u64::MAX {
        Err(NftVoterError::VoterWeightOverflow)
    } else {
        spec_scan_stage_tickets(tickets, now_slot, i + 1, (acc + tickets[i].weight) as u64)
    }
}

/// A scan that succeeds returns exactly the sum of the staged weights, and
/// certifies that no asset is staged twice and no ticket is stale.
pub proof fn lemma_scan_stage_tickets_ok(
    tickets: Seq<NftActionTicket>,
    now_slot: u64,
    i: int,
    acc: u64,
)
    requires
        0 <= i <= tickets.len(),
        spec_scan_stage_tickets(tickets, now_slot, i, acc) is Ok,
    ensures
        0 <= acc + tickets_weight_sum(tickets) - tickets_weight_sum_to(tickets, i)
            <= u64::MAX,
        spec_scan_stage_tickets(tickets, now_slot, i, acc) == Ok::<u64, NftVoterError>(
            (acc + tickets_weight_sum(tickets) - tickets_weight_sum_to(tickets, i)) as u64,
        ),
        forall|j: int| i <= j < tickets.len() ==> ticket_fresh(tickets[j], now_slot),
        forall|j1: int, j2: int|
            0 <= j1 < j2 < tickets.len() && i <= j2 ==> tickets[j1].nft_mint
                != tickets[j2].nft_mint,
    decreases tickets.len() - i,
{
    if i < tickets.len() {
        lemma_scan_stage_tickets_ok(
            tickets,
            now_slot,
            i + 1,
            (acc + tickets[i].weight) as u64,
        );
    }
}

/// A successful scan of a whole stage yields the sum of its weights.
pub proof fn lemma_scan_ok_is_weight_sum(tickets: Seq<NftActionTicket>, now_slot: u64)
    requires
        spec_scan_stage_tickets(tickets, now_slot, 0, 0) is Ok,
    ensures
        0 <= tickets_weight_sum(tickets) <= u64::MAX,
        spec_scan_stage_tickets(tickets, now_slot, 0, 0) == Ok::<u64, NftVoterError>(
            tickets_weight_sum(tickets) as u64,
        ),
        unique_mints(tickets),
        forall|j: int| 0 <= j < tickets.len() ==> ticket_fresh(tickets[j], now_slot),
{
    lemma_scan_stage_tickets_ok(tickets, now_slot, 0, 0);
}

/// The weight record after a finalize wrote `total` for `action` at
/// `now_slot`: the weight is replaced, the expiry stamps the slot, and no
/// target is set.
pub open spec fn finalized_record(
    v: VoterWeightRecord,
    action: VoterWeightAction,
    total: u64,
    now_slot: u64,
) -> VoterWeightRecord {
    VoterWeightRecord {
        voter_weight: total,
        voter_weight_expiry: Some(now_slot),
        weight_action: Some(action),
        weight_action_target: None,
        ..v
    }
}

/// Replacement on non-voting finalize: finalizing one stage and then
/// another leaves exactly the second stage's weight; the first total is
/// gone entirely, whatever either action was.
pub proof fn lemma_finalize_replaces(
    v: VoterWeightRecord,
    action1: VoterWeightAction,
    total1: u64,
    now_slot1: u64,
    action2: VoterWeightAction,
    total2: u64,
    now_slot2: u64,
)
    ensures
        finalized_record(
            finalized_record(v, action1, total1, now_slot1),
            action2,
            total2,
            now_slot2,
        ) == finalized_record(v, action2, total2, now_slot2),
        finalized_record(
            finalized_record(v, action1, total1, now_slot1),
            action2,
            total2,
            now_slot2,
        ).voter_weight == total2,
{
}

/// What one finalize call does: the weight record must belong to the
/// registrar's realm and mint; vote-casting cannot be finalized here; the
/// stage must belong to (registrar, voter, action); and then the staged
/// tickets are scanned and summed.
pub open spec fn spec_update_voter_weight_record(
    accounts: UpdateVoterWeightRecord,
    action: VoterWeightAction,
    now_slot: u64,
) -> Result<u64, NftVoterError> {
    if accounts.voter_weight_record.realm != accounts.registrar.realm {
        Err(NftVoterError::InvalidVoterWeightRecordRealm)
    } else if accounts.voter_weight_record.governing_token_mint
        != accounts.registrar.governing_token_mint {
        Err(NftVoterError::InvalidVoterWeightRecordMint)
    } else if action == VoterWeightAction::CastVote {
        Err(NftVoterError::CastVoteIsNotAllowed)
    } else if !table_matches(
        accounts.nft_tickets_table,
        accounts.registrar_key,
        accounts.voter_weight_record.governing_token_owner,
        action,
    ) {
        Err(NftVoterError::InvalidNftTicketTable)
    } else {
        spec_scan_stage_tickets(accounts.nft_tickets_table.nft_tickets@, now_slot, 0, 0)
    }
}

/// Sums the staged tickets for a non-voting action into the voter weight
/// record, replacing the stored weight, stamping the current slot and
/// clearing the target. The host then destroys the stage and returns its
/// storage. On failure nothing changes.
pub fn update_voter_weight_record(
    accounts: &mut UpdateVoterWeightRecord,
    voter_weight_action: VoterWeightAction,
    now_slot: u64,
) -> (r: Result<(), NftVoterError>)
    ensures
        match spec_update_voter_weight_record(*old(accounts), voter_weight_action, now_slot) {
            Err(e) => r == Err::<(), NftVoterError>(e) && *final(accounts) == *old(accounts),
            Ok(total) => r is Ok && total == tickets_weight_sum(
                old(accounts).nft_tickets_table.nft_tickets@,
            ) && final(accounts).voter_weight_record == finalized_record(
                old(accounts).voter_weight_record,
                voter_weight_action,
                total,
                now_slot,
            ) && final(accounts).registrar == old(accounts).registrar
                && final(accounts).registrar_key == old(accounts).registrar_key
                && final(accounts).nft_tickets_table == old(accounts).nft_tickets_table,
        },
{
    if !pubkey_eq(&accounts.voter_weight_record.realm, &accounts.registrar.realm) {
        return Err(NftVoterError::InvalidVoterWeightRecordRealm);
    }
    if !pubkey_eq(
        &accounts.voter_weight_record.governing_token_mint,
        &accounts.registrar.governing_token_mint,
    ) {
        return Err(NftVoterError::InvalidVoterWeightRecordMint);
    }
    match voter_weight_action {
        VoterWeightAction::CastVote => {
            return Err(NftVoterError::CastVoteIsNotAllowed);
        },
        VoterWeightAction::CommentProposal
        | VoterWeightAction::CreateGovernance
        | VoterWeightAction::CreateProposal
        | VoterWeightAction::SignOffProposal => {},
    }
    if !(pubkey_eq(&accounts.nft_tickets_table.registrar, &accounts.registrar_key) && pubkey_eq(
        &accounts.nft_tickets_table.governing_token_owner,
        &accounts.voter_weight_record.governing_token_owner,
    ) && accounts.nft_tickets_table.action == voter_weight_action) {
        return Err(NftVoterError::InvalidNftTicketTable);
    }
    let total = match scan_stage_tickets(&accounts.nft_tickets_table.nft_tickets, now_slot) {
        Ok(t) => t,
        Err(e) => {
            return Err(e);
        },
    };
    proof {
        lemma_scan_ok_is_weight_sum(accounts.nft_tickets_table.nft_tickets@, now_slot);
    }
    accounts.voter_weight_record.voter_weight = total;
    accounts.voter_weight_record.voter_weight_expiry = Some(now_slot);
    accounts.voter_weight_record.weight_action = Some(voter_weight_action);
    accounts.voter_weight_record.weight_action_target = None;
    Ok(())
}

/// Walks the staged tickets, rejecting duplicates and stale tickets, and
/// sums the weights with overflow-checked addition.
pub(crate) fn scan_stage_tickets(tickets: &Vec<NftActionTicket>, now_slot: u64) -> (r: Result<
    u64,
    NftVoterError,
>)
    ensures
        r == spec_scan_stage_tickets(tickets@, now_slot, 0, 0),
{
    let mut total: u64 = 0;
    let mut i: usize = 0;
    while i < tickets.len()
        invariant
            i <= tickets@.len(),
            spec_scan_stage_tickets(tickets@, now_slot, i as int, total)
                == spec_scan_stage_tickets(tickets@, now_slot, 0, 0),
        decreases tickets@.len() - i,
    {
        if mint_in_prefix(tickets, i, &tickets[i].nft_mint) {
            return Err(NftVoterError::DuplicatedNftDetected);
        }
        let fresh = match tickets[i].expiry {
            Some(e) => e >= now_slot,
            None => false,
        };
        if !fresh {
            return Err(NftVoterError::NftTicketExpired);
        }
        total = match total.checked_add(tickets[i].weight) {
            Some(t) => t,
            None => {
                return Err(NftVoterError::VoterWeightOverflow);
            },
        };
        i += 1;
    }
    Ok(total)
}

} // verus!
