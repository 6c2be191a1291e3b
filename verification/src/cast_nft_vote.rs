//! Casting a vote with staged NFTs. The assets used for voting are tracked
//! with vote markers, so each (proposal, asset) pair is consumed at most
//! once; the resulting weight record is valid for the current slot and the
//! target proposal only. Casting is accumulative: several calls against the
//! same proposal add up, so a voter may vote with any number of assets; a
//! call against a different proposal starts a fresh total.

use vstd::prelude::*;
use crate::create_cnft_action_ticket::table_matches;
use crate::error::NftVoterError;
use crate::nft_action_ticket::{
    mint_in_prefix, ticket_fresh, tickets_weight_sum, tickets_weight_sum_to, unique_mints,
    NftActionTicket, NftTicketTable,
};
use crate::nft_vote_record::{
    ledger_contains, ledger_unique, CompressedNftVoteRecord, NftVoteLedger,
};
use crate::pubkey::{pubkey_eq, Pubkey};
use crate::registrar::Registrar;
use crate::voter_weight_record::{TokenOwnerRecord, VoterWeightAction, VoterWeightRecord};

verus! {

/// The accounts one vote-cast call reads and writes: the registrar (with
/// its address), the stage of verified vote tickets to consume, the weight
/// record to write, and the voter's membership record with the authority
/// that signed.
pub struct CastNftVote {
    pub registrar_key: Pubkey,
    pub registrar: Registrar,
    pub nft_tickets_table: NftTicketTable,
    pub voter_weight_record: VoterWeightRecord,
    pub voter_token_owner_record: TokenOwnerRecord,
    pub voter_authority: Pubkey,
    pub voter_authority_is_signer: bool,
}

/// Who may act for the owner: the token owner record must belong to the
/// registrar's realm and mint, the signing authority must be the owner or
/// the owner's delegate, and the weight record must name the same owner.
pub open spec fn spec_resolve_governing_token_owner(
    registrar: Registrar,
    voter_token_owner_record: TokenOwnerRecord,
    voter_authority: Pubkey,
    voter_authority_is_signer: bool,
    voter_weight_record: VoterWeightRecord,
) -> Result<Pubkey, NftVoterError> {
    if !(voter_token_owner_record.realm == registrar.realm
        && voter_token_owner_record.governing_token_mint == registrar.governing_token_mint) {
        Err(NftVoterError::InvalidTokenOwnerRecord)
    } else if !(voter_authority_is_signer && (voter_authority
        == voter_token_owner_record.governing_token_owner
        || voter_token_owner_record.governance_delegate == Some(voter_authority))) {
        Err(NftVoterError::GoverningTokenOwnerOrDelegateMustSign)
    } else if voter_weight_record.governing_token_owner
        != voter_token_owner_record.governing_token_owner {
        Err(NftVoterError::InvalidTokenOwnerForVoterWeightRecord)
    } else {
        Ok(voter_token_owner_record.governing_token_owner)
    }
}

/// Resolves which governing token owner the call acts for, from the
/// governance collaborator's membership record and the signing authority.
pub fn resolve_governing_token_owner(
    registrar: &Registrar,
    voter_token_owner_record: &TokenOwnerRecord,
    voter_authority: &Pubkey,
    voter_authority_is_signer: bool,
    voter_weight_record: &VoterWeightRecord,
) -> (r: Result<Pubkey, NftVoterError>)
    ensures
        r == spec_resolve_governing_token_owner(
            *registrar,
            *voter_token_owner_record,
            *voter_authority,
            voter_authority_is_signer,
            *voter_weight_record,
        ),
{
    if !(pubkey_eq(&voter_token_owner_record.realm, &registrar.realm) && pubkey_eq(
        &voter_token_owner_record.governing_token_mint,
        &registrar.governing_token_mint,
    )) {
        return Err(NftVoterError::InvalidTokenOwnerRecord);
    }
    let is_delegate = match &voter_token_owner_record.governance_delegate {
        Some(d) => pubkey_eq(d, voter_authority),
        None => false,
    };
    if !(voter_authority_is_signer && (pubkey_eq(
        voter_authority,
        &voter_token_owner_record.governing_token_owner,
    ) || is_delegate)) {
        return Err(NftVoterError::GoverningTokenOwnerOrDelegateMustSign);
    }
    if !pubkey_eq(
        &voter_weight_record.governing_token_owner,
        &voter_token_owner_record.governing_token_owner,
    ) {
        return Err(NftVoterError::InvalidTokenOwnerForVoterWeightRecord);
    }
    Ok(voter_token_owner_record.governing_token_owner)
}

/// Walking the vote tickets in order from ticket `i` with running total
/// `acc`: a repeated asset is a duplicate, a ticket whose expiry lies
/// before `now_slot` is stale, an asset whose marker for this proposal
/// already exists has already voted, and a total beyond 64 bits is an
/// overflow; the first failure stops the walk.
pub open spec fn spec_scan_vote_tickets(
    tickets: Seq<NftActionTicket>,
    records: Seq<CompressedNftVoteRecord>,
    proposal: Pubkey,
    now_slot: u64,
    i: int,
    acc: u64,
) -> Result<u64, NftVoterError>
    decreases tickets.len() - i,
{
    if i < 0 || i >= tickets.len() {
        Ok(acc)
    } else if exists|j: int| 0 <= j < i && tickets[j].nft_mint == tickets[i].nft_mint {
        Err(NftVoterError::DuplicatedNftDetected)
    } else if !ticket_fresh(tickets[i], now_slot) {
        Err(NftVoterError::NftTicketExpired)
    } else if ledger_contains(records, proposal, tickets[i].nft_mint) {
        Err(NftVoterError::NftAlreadyVoted)
    } else if acc + tickets[i].weight > u64::MAX {
        Err(NftVoterError::VoterWeightOverflow)
    } else {
        spec_scan_vote_tickets(tickets, records, proposal, now_slot, i + 1, (acc
            + tickets[i].weight) as u64)
    }
}

/// A vote scan that succeeds returns exactly the sum of the staged weights,
/// and certifies that no asset appears twice, nothing is stale, and no
/// asset has voted on the proposal before.
pub proof fn lemma_scan_vote_tickets_ok(
    tickets: Seq<NftActionTicket>,
    records: Seq<CompressedNftVoteRecord>,
    proposal: Pubkey,
    now_slot: u64,
    i: int,
    acc: u64,
)
    requires
        0 <= i <= tickets.len(),
        spec_scan_vote_tickets(tickets, records, proposal, now_slot, i, acc) is Ok,
    ensures
        0 <= acc + tickets_weight_sum(tickets) - tickets_weight_sum_to(tickets, i)
            <= u64::MAX,
        spec_scan_vote_tickets(tickets, records, proposal, now_slot, i, acc) == Ok::<
            u64,
            NftVoterError,
        >((acc + tickets_weight_sum(tickets) - tickets_weight_sum_to(tickets, i)) as u64),
        forall|j: int| i <= j < tickets.len() ==> ticket_fresh(tickets[j], now_slot),
        forall|j: int|
            i <= j < tickets.len() ==> !ledger_contains(records, proposal, tickets[j].nft_mint),
        forall|j1: int, j2: int|
            0 <= j1 < j2 < tickets.len() && i <= j2 ==> tickets[j1].nft_mint
                != tickets[j2].nft_mint,
    decreases tickets.len() - i,
{
    if i < tickets.len() {
        lemma_scan_vote_tickets_ok(
            tickets,
            records,
            proposal,
            now_slot,
            i + 1,
            (acc + tickets[i].weight) as u64,
        );
    }
}

/// The weight a cast for `proposal` starts from: the stored weight when the
/// record already holds a vote-cast total for the same proposal, and zero
/// otherwise.
pub open spec fn cast_base_weight(v: VoterWeightRecord, proposal: Pubkey) -> u64 {
    if v.weight_action_target == Some(proposal) && v.weight_action == Some(
        VoterWeightAction::CastVote,
    ) {
        v.voter_weight
    } else {
        0
    }
}

/// The weight record after a cast for `proposal` stored `new_weight` at
/// `now_slot`.
pub open spec fn cast_record(
    v: VoterWeightRecord,
    proposal: Pubkey,
    new_weight: u64,
    now_slot: u64,
) -> VoterWeightRecord {
    VoterWeightRecord {
        voter_weight: new_weight,
        voter_weight_expiry: Some(now_slot),
        weight_action: Some(VoterWeightAction::CastVote),
        weight_action_target: Some(proposal),
        ..v
    }
}

/// Additivity on vote-casting: after a cast for a proposal stored some
/// weight, a further cast for the same proposal starts from that weight —
/// batches against one proposal add up — while a cast for any other
/// proposal starts from zero, resetting the total to the new batch alone.
pub proof fn lemma_cast_vote_additivity(
    v: VoterWeightRecord,
    proposal: Pubkey,
    other: Pubkey,
    new_weight: u64,
    now_slot: u64,
)
    ensures
        cast_base_weight(cast_record(v, proposal, new_weight, now_slot), proposal) == new_weight,
        other != proposal ==> cast_base_weight(cast_record(v, proposal, new_weight, now_slot), other)
            == 0,
{
}

/// The markers a successful cast creates: one per staged ticket, keyed by
/// the proposal and the ticket's asset, naming the voter.
pub open spec fn vote_markers(
    tickets: Seq<NftActionTicket>,
    proposal: Pubkey,
    governing_token_owner: Pubkey,
) -> Seq<CompressedNftVoteRecord> {
    tickets.map_values(
        |t: NftActionTicket|
            CompressedNftVoteRecord {
                proposal,
                asset_id: t.nft_mint,
                governing_token_owner,
            },
    )
}

/// What one vote-cast call does: the weight record must belong to the
/// registrar's realm and mint; the authority must act for the owner; the
/// stage must be the owner's vote-cast stage for this registrar; the staged
/// tickets are scanned against the marker ledger and summed; and the sum is
/// added to the stored weight when the record already holds a vote-cast
/// total for the same proposal, else it replaces it.
pub open spec fn spec_cast_nft_vote(
    accounts: CastNftVote,
    records: Seq<CompressedNftVoteRecord>,
    proposal: Pubkey,
    now_slot: u64,
) -> Result<u64, NftVoterError> {
    if accounts.voter_weight_record.realm != accounts.registrar.realm {
        Err(NftVoterError::InvalidVoterWeightRecordRealm)
    } else if accounts.voter_weight_record.governing_token_mint
        != accounts.registrar.governing_token_mint {
        Err(NftVoterError::InvalidVoterWeightRecordMint)
    } else {
        match spec_resolve_governing_token_owner(
            accounts.registrar,
            accounts.voter_token_owner_record,
            accounts.voter_authority,
            accounts.voter_authority_is_signer,
            accounts.voter_weight_record,
        ) {
            Err(e) => Err(e),
            Ok(governing_token_owner) => {
                if !table_matches(
                    accounts.nft_tickets_table,
                    accounts.registrar_key,
                    governing_token_owner,
                    VoterWeightAction::CastVote,
                ) {
                    Err(NftVoterError::InvalidNftTicketTable)
                } else {
                    match spec_scan_vote_tickets(
                        accounts.nft_tickets_table.nft_tickets@,
                        records,
                        proposal,
                        now_slot,
                        0,
                        0,
                    ) {
                        Err(e) => Err(e),
                        Ok(total) => {
                            if cast_base_weight(accounts.voter_weight_record, proposal) + total
                                > u64::MAX {
                                Err(NftVoterError::VoterWeightOverflow)
                            } else {
                                Ok(
                                    (cast_base_weight(accounts.voter_weight_record, proposal)
                                        + total) as u64,
                                )
                            }
                        },
                    }
                }
            },
        }
    }
}

/// Casts a vote with the staged assets: creates one marker per asset in the
/// dedup ledger and folds the batch's weight into the voter weight record.
/// The call either admits the whole batch or reports the first failure and
/// changes nothing — verification and dedup are checked for every ticket
/// before any marker is created.
pub fn cast_nft_vote(
    accounts: &mut CastNftVote,
    ledger: &mut NftVoteLedger,
    proposal: Pubkey,
    now_slot: u64,
) -> (r: Result<(), NftVoterError>)
    ensures
        match spec_cast_nft_vote(*old(accounts), old(ledger).records@, proposal, now_slot) {
            Err(e) => r == Err::<(), NftVoterError>(e) && *final(accounts) == *old(accounts)
                && *final(ledger) == *old(ledger),
            Ok(new_weight) => r is Ok && {
                &&& final(accounts).voter_weight_record == cast_record(
                    old(accounts).voter_weight_record,
                    proposal,
                    new_weight,
                    now_slot,
                )
                &&& final(accounts).registrar == old(accounts).registrar
                &&& final(accounts).registrar_key == old(accounts).registrar_key
                &&& final(accounts).nft_tickets_table == old(accounts).nft_tickets_table
                &&& final(accounts).voter_token_owner_record == old(
                    accounts,
                ).voter_token_owner_record
                &&& final(accounts).voter_authority == old(accounts).voter_authority
                &&& final(accounts).voter_authority_is_signer == old(
                    accounts,
                ).voter_authority_is_signer
                &&& new_weight == cast_base_weight(old(accounts).voter_weight_record, proposal)
                    + tickets_weight_sum(old(accounts).nft_tickets_table.nft_tickets@)
                &&& final(ledger).records@ == old(ledger).records@ + vote_markers(
                    old(accounts).nft_tickets_table.nft_tickets@,
                    proposal,
                    old(accounts).voter_weight_record.governing_token_owner,
                )
                &&& old(ledger).wf() ==> final(ledger).wf()
            },
        },
{
    if !pubkey_eq(&accounts.voter_weight_record.realm, &accounts.registrar.realm) {
        return Err(NftVoterError::InvalidVoterWeightRecordRealm);
    }
    if !pubkey_eq(
        &accounts.voter_weight_record.governing_token_mint,
        &accounts.registrar.governing_token_mint,
    ) {
        return Err(NftVoterError::InvalidVoterWeightRecordMint);
    }
    let governing_token_owner = match resolve_governing_token_owner(
        &accounts.registrar,
        &accounts.voter_token_owner_record,
        &accounts.voter_authority,
        accounts.voter_authority_is_signer,
        &accounts.voter_weight_record,
    ) {
        Ok(o) => o,
        Err(e) => {
            return Err(e);
        },
    };
    if !(pubkey_eq(&accounts.nft_tickets_table.registrar, &accounts.registrar_key) && pubkey_eq(
        &accounts.nft_tickets_table.governing_token_owner,
        &governing_token_owner,
    ) && accounts.nft_tickets_table.action == VoterWeightAction::CastVote) {
        return Err(NftVoterError::InvalidNftTicketTable);
    }
    let total = match scan_vote_tickets(
        &accounts.nft_tickets_table.nft_tickets,
        ledger,
        &proposal,
        now_slot,
    ) {
        Ok(t) => t,
        Err(e) => {
            return Err(e);
        },
    };
    let base = if cast_matches_proposal(&accounts.voter_weight_record, &proposal) {
        accounts.voter_weight_record.voter_weight
    } else {
        0
    };
    let new_weight = match base.checked_add(total) {
        Some(w) => w,
        None => {
            return Err(NftVoterError::VoterWeightOverflow);
        },
    };
    proof {
        lemma_scan_vote_tickets_ok(
            accounts.nft_tickets_table.nft_tickets@,
            ledger.records@,
            proposal,
            now_slot,
            0,
            0,
        );
    }
    let ghost old_records = ledger.records@;
    let tickets = &accounts.nft_tickets_table.nft_tickets;
    let mut i: usize = 0;
    while i < tickets.len()
        invariant
            i <= tickets@.len(),
            governing_token_owner == accounts.voter_weight_record.governing_token_owner,
            forall|j: int|
                0 <= j < tickets@.len() ==> !ledger_contains(
                    old_records,
                    proposal,
                    tickets@[j].nft_mint,
                ),
            forall|j1: int, j2: int|
                0 <= j1 < j2 < tickets@.len() ==> tickets@[j1].nft_mint != tickets@[j2].nft_mint,
            ledger.records@ == old_records + vote_markers(
                tickets@.take(i as int),
                proposal,
                governing_token_owner,
            ),
            ledger_unique(old_records) ==> ledger_unique(ledger.records@),
        decreases tickets@.len() - i,
    {
        proof {
            if ledger_contains(ledger.records@, proposal, tickets@[i as int].nft_mint) {
                let w = choose|w: int|
                    0 <= w < ledger.records@.len() && ledger.records@[w].proposal == proposal
                        && ledger.records@[w].asset_id == tickets@[i as int].nft_mint;
                if w < old_records.len() {
                    assert(ledger_contains(old_records, proposal, tickets@[i as int].nft_mint));
                } else {
                    assert(ledger.records@[w] == vote_markers(
                        tickets@.take(i as int),
                        proposal,
                        governing_token_owner,
                    )[w - old_records.len()]);
                    assert(tickets@[w - old_records.len()].nft_mint == tickets@[i as int].nft_mint);
                }
                assert(false);
            }
        }
        match ledger.admit_vote(proposal, tickets[i].nft_mint, governing_token_owner) {
            Ok(u) => u,
            Err(e) => {
                // the scan admitted this ticket against the initial ledger,
                // and the markers added so far carry other assets
                proof {
                    assert(false);
                }
                return Err(e);
            },
        };
        proof {
            assert(tickets@.take(i + 1).drop_last() =~= tickets@.take(i as int));
            assert(vote_markers(tickets@.take(i + 1), proposal, governing_token_owner)
                =~= vote_markers(tickets@.take(i as int), proposal, governing_token_owner).push(
                (CompressedNftVoteRecord {
                    proposal,
                    asset_id: tickets@[i as int].nft_mint,
                    governing_token_owner,
                }),
            ));
        }
        i += 1;
    }
    proof {
        assert(tickets@.take(tickets@.len() as int) =~= tickets@);
    }
    accounts.voter_weight_record.voter_weight = new_weight;
    accounts.voter_weight_record.voter_weight_expiry = Some(now_slot);
    accounts.voter_weight_record.weight_action = Some(VoterWeightAction::CastVote);
    accounts.voter_weight_record.weight_action_target = Some(proposal);
    Ok(())
}

/// Whether the stored weight already belongs to a vote cast on `proposal`.
fn cast_matches_proposal(v: &VoterWeightRecord, proposal: &Pubkey) -> (r: bool)
    ensures
        r == (v.weight_action_target == Some(*proposal) && v.weight_action == Some(
            VoterWeightAction::CastVote,
        )),
{
    let target_matches = match &v.weight_action_target {
        Some(t) => pubkey_eq(t, proposal),
        None => false,
    };
    let action_matches = match v.weight_action {
        Some(a) => a == VoterWeightAction::CastVote,
        None => false,
    };
    target_matches && action_matches
}

/// Walks the vote tickets against the marker ledger, rejecting duplicates,
/// stale tickets and already voted assets, and sums the weights with
/// overflow-checked addition. Read-only.
fn scan_vote_tickets(
    tickets: &Vec<NftActionTicket>,
    ledger: &NftVoteLedger,
    proposal: &Pubkey,
    now_slot: u64,
) -> (r: Result<u64, NftVoterError>)
    ensures
        r == spec_scan_vote_tickets(tickets@, ledger.records@, *proposal, now_slot, 0, 0),
{
    let mut total: u64 = 0;
    let mut i: usize = 0;
    while i < tickets.len()
        invariant
            i <= tickets@.len(),
            spec_scan_vote_tickets(tickets@, ledger.records@, *proposal, now_slot, i as int, total)
                == spec_scan_vote_tickets(tickets@, ledger.records@, *proposal, now_slot, 0, 0),
        decreases tickets@.len() - i,
    {
        if mint_in_prefix(tickets, i, &tickets[i].nft_mint) {
            return Err(NftVoterError::DuplicatedNftDetected);
        }
        let fresh = match tickets[i].expiry {
            Some(e) => e >= now_slot,
            None => false,
        };
        if !fresh {
            return Err(NftVoterError::NftTicketExpired);
        }
        if ledger.contains_marker(proposal, &tickets[i].nft_mint) {
            return Err(NftVoterError::NftAlreadyVoted);
        }
        total = match total.checked_add(tickets[i].weight) {
            Some(t) => t,
            None => {
                return Err(NftVoterError::VoterWeightOverflow);
            },
        };
        i += 1;
    }
    Ok(total)
}

} // verus!
