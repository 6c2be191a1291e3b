//! Staging verified weight for directly stored NFTs: the equivalent of the
//! compressed staging call for assets whose token and metadata accounts are
//! presented whole. Each (token account, metadata account) pair resolves to
//! a ticket that is staged into the voter's table for the action.

use vstd::prelude::*;
use crate::create_cnft_action_ticket::{base_tickets, stage_capacity, table_matches};
use crate::error::NftVoterError;
use crate::nft_action_ticket::{
    copy_tickets, has_mint, tickets_upserted, unique_mints, upsert_ticket, NftActionTicket,
    NftTicketTable, TICKET_EXPIRY_WINDOW,
};
use crate::pubkey::{pubkey_eq, Pubkey};
use crate::registrar::Registrar;
use crate::resolver::{
    resolve_nft_vote_weight_and_mint, spec_resolve_nft_vote_weight_and_mint, NftMetadataAccount,
    NftTokenAccount,
};
use crate::voter_weight_record::{VoterWeightAction, VoterWeightRecord};

verus! {

/// The accounts the staging instruction reads: the registrar (with its
/// address) and the voter weight record naming the staging voter.
pub struct CreateNftActionTicket {
    pub registrar_key: Pubkey,
    pub registrar: Registrar,
    pub voter_weight_record: VoterWeightRecord,
}

/// Walking the presented (token account, metadata account) pairs in order
/// from pair `i`: each resolves to a (weight, mint) pair whose ticket is
/// written over any earlier ticket for the same mint, or appended within
/// capacity; the first failure stops the walk.
pub open spec fn spec_stage_nft_claims(
    registrar: Registrar,
    governing_token_owner: Pubkey,
    claims: Seq<(NftTokenAccount, NftMetadataAccount)>,
    seen: Seq<Pubkey>,
    tickets: Seq<NftActionTicket>,
    capacity: u8,
    expiry_slot: u64,
    i: int,
) -> Result<Seq<NftActionTicket>, NftVoterError>
    decreases claims.len() - i,
{
    if i < 0 || i >= claims.len() {
        Ok(tickets)
    } else {
        match spec_resolve_nft_vote_weight_and_mint(
            registrar,
            governing_token_owner,
            claims[i].0,
            claims[i].1,
            seen,
        ) {
            Err(e) => Err(e),
            Ok((weight, nft_mint)) => {
                if !has_mint(tickets, nft_mint) && tickets.len() >= capacity as int {
                    Err(NftVoterError::NftTicketTableFull)
                } else {
                    spec_stage_nft_claims(
                        registrar,
                        governing_token_owner,
                        claims,
                        seen.push(nft_mint),
                        tickets_upserted(
                            tickets,
                            (NftActionTicket { nft_mint, weight, expiry: Some(expiry_slot) }),
                        ),
                        capacity,
                        expiry_slot,
                        i + 1,
                    )
                }
            },
        }
    }
}

/// What one staging call does: the weight record must belong to the
/// registrar's realm and mint, an existing table must belong to
/// (registrar, voter, action), and then the pairs are walked in order.
pub open spec fn spec_create_nft_action_ticket(
    accounts: CreateNftActionTicket,
    table: Option<NftTicketTable>,
    action: VoterWeightAction,
    max_nfts: u8,
    claims: Seq<(NftTokenAccount, NftMetadataAccount)>,
    expiry_slot: u64,
) -> Result<Seq<NftActionTicket>, NftVoterError> {
    if accounts.voter_weight_record.realm != accounts.registrar.realm {
        Err(NftVoterError::InvalidVoterWeightRecordRealm)
    } else if accounts.voter_weight_record.governing_token_mint
        != accounts.registrar.governing_token_mint {
        Err(NftVoterError::InvalidVoterWeightRecordMint)
    } else if !(match table {
        Some(t) => table_matches(
            t,
            accounts.registrar_key,
            accounts.voter_weight_record.governing_token_owner,
            action,
        ),
        None => true,
    }) {
        Err(NftVoterError::InvalidNftTicketTable)
    } else {
        spec_stage_nft_claims(
            accounts.registrar,
            accounts.voter_weight_record.governing_token_owner,
            claims,
            Seq::empty(),
            base_tickets(table),
            stage_capacity(table, max_nfts),
            expiry_slot,
            0,
        )
    }
}

/// Verifies each presented NFT and stages a ticket
/// (mint, weight, expiry = now + the fixed window) for it, overwriting any
/// earlier ticket for the same mint. Creates the table on the first call.
/// The call either stages every pair or reports the first failure and
/// changes nothing.
pub fn create_nft_action_ticket(
    accounts: &CreateNftActionTicket,
    nft_tickets_table: &mut Option<NftTicketTable>,
    voter_weight_action: VoterWeightAction,
    max_nfts: u8,
    params: &Vec<(NftTokenAccount, NftMetadataAccount)>,
    now_slot: u64,
) -> (r: Result<(), NftVoterError>)
    requires
        accounts.registrar.wf(),
        now_slot <= u64::MAX - TICKET_EXPIRY_WINDOW,
        match *old(nft_tickets_table) {
            Some(t) => t.wf(),
            None => true,
        },
    ensures
        match spec_create_nft_action_ticket(
            *accounts,
            *old(nft_tickets_table),
            voter_weight_action,
            max_nfts,
            params@,
            (now_slot + TICKET_EXPIRY_WINDOW) as u64,
        ) {
            Err(e) => r == Err::<(), NftVoterError>(e) && *final(nft_tickets_table) == *old(
                nft_tickets_table,
            ),
            Ok(ts) => r is Ok && match *final(nft_tickets_table) {
                Some(t) => {
                    &&& t.registrar == accounts.registrar_key
                    &&& t.governing_token_owner
                        == accounts.voter_weight_record.governing_token_owner
                    &&& t.action == voter_weight_action
                    &&& t.max_nfts == stage_capacity(*old(nft_tickets_table), max_nfts)
                    &&& t.nft_tickets@ == ts
                    &&& t.wf()
                },
                None => false,
            },
        },
{
    let governing_token_owner = accounts.voter_weight_record.governing_token_owner;
    if !pubkey_eq(&accounts.voter_weight_record.realm, &accounts.registrar.realm) {
        return Err(NftVoterError::InvalidVoterWeightRecordRealm);
    }
    if !pubkey_eq(
        &accounts.voter_weight_record.governing_token_mint,
        &accounts.registrar.governing_token_mint,
    ) {
        return Err(NftVoterError::InvalidVoterWeightRecordMint);
    }
    let capacity: u8;
    let mut tickets: Vec<NftActionTicket>;
    match nft_tickets_table.as_ref() {
        Some(t) => {
            if !(pubkey_eq(&t.registrar, &accounts.registrar_key) && pubkey_eq(
                &t.governing_token_owner,
                &governing_token_owner,
            ) && t.action == voter_weight_action) {
                return Err(NftVoterError::InvalidNftTicketTable);
            }
            capacity = t.max_nfts;
            tickets = copy_tickets(&t.nft_tickets);
        },
        None => {
            capacity = max_nfts;
            tickets = Vec::new();
            assert(tickets@ =~= base_tickets(*old(nft_tickets_table)));
        },
    }
    let ghost base = tickets@;
    let expiry_slot = now_slot + TICKET_EXPIRY_WINDOW;
    let mut unique_nft_mints: Vec<Pubkey> = Vec::new();
    let mut k: usize = 0;
    assert(unique_nft_mints@ =~= Seq::<Pubkey>::empty());
    while k < params.len()
        invariant
            k <= params@.len(),
            accounts.registrar.wf(),
            governing_token_owner == accounts.voter_weight_record.governing_token_owner,
            accounts.voter_weight_record.realm == accounts.registrar.realm,
            accounts.voter_weight_record.governing_token_mint
                == accounts.registrar.governing_token_mint,
            match *old(nft_tickets_table) {
                Some(t) => table_matches(
                    t,
                    accounts.registrar_key,
                    governing_token_owner,
                    voter_weight_action,
                ),
                None => true,
            },
            *nft_tickets_table == *old(nft_tickets_table),
            base == base_tickets(*old(nft_tickets_table)),
            capacity == stage_capacity(*old(nft_tickets_table), max_nfts),
            now_slot <= u64::MAX - TICKET_EXPIRY_WINDOW,
            expiry_slot == now_slot + TICKET_EXPIRY_WINDOW,
            unique_mints(tickets@),
            tickets@.len() <= capacity as int,
            spec_stage_nft_claims(
                accounts.registrar,
                governing_token_owner,
                params@,
                unique_nft_mints@,
                tickets@,
                capacity,
                expiry_slot,
                k as int,
            ) == spec_stage_nft_claims(
                accounts.registrar,
                governing_token_owner,
                params@,
                Seq::empty(),
                base,
                capacity,
                expiry_slot,
                0,
            ),
        decreases params@.len() - k,
    {
        let nft_info = &params[k].0;
        let nft_metadata = &params[k].1;
        let (weight, nft_mint) = match resolve_nft_vote_weight_and_mint(
            &accounts.registrar,
            &governing_token_owner,
            nft_info,
            nft_metadata,
            &mut unique_nft_mints,
        ) {
            Ok(p) => p,
            Err(e) => {
                return Err(e);
            },
        };
        let ticket = NftActionTicket { nft_mint, weight, expiry: Some(expiry_slot) };
        match upsert_ticket(&mut tickets, ticket, capacity) {
            Ok(u) => u,
            Err(e) => {
                return Err(e);
            },
        };
        k += 1;
    }
    *nft_tickets_table = Some(
        NftTicketTable {
            registrar: accounts.registrar_key,
            governing_token_owner,
            action: voter_weight_action,
            max_nfts: capacity,
            nft_tickets: tickets,
        },
    );
    Ok(())
}

} // verus!
