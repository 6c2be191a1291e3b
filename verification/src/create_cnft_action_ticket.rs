//! Staging verified compressed-asset weight. Before a voter can spend
//! weight on an action, each owned asset is verified and a ticket
//! (asset, weight, expiry) is staged into the voter's table for that
//! action; the table is created lazily on the first staging call and can be
//! filled across as many calls as needed.

use vstd::prelude::*;
use crate::error::NftVoterError;
use crate::nft_action_ticket::{
    has_mint, tickets_upserted, unique_mints, copy_tickets, upsert_ticket, NftActionTicket,
    NftTicketTable, TICKET_EXPIRY_WINDOW,
};
use crate::nft_metadata::metadata_bounded;
use crate::pubkey::{pubkey_eq, Pubkey};
use crate::registrar::Registrar;
use crate::resolver::{resolve_cnft_vote_weight, spec_resolve_cnft_vote_weight};
use crate::verify_cnft_info::{CompressedNftAsset, VerifyCnftInfo};
use crate::voter_weight_record::{VoterWeightAction, VoterWeightRecord};

verus! {

/// The accounts the compressed staging instruction reads: the registrar
/// (with its address, which the ticket table is bound to) and the voter
/// weight record naming the staging voter.
pub struct CreateCnftActionTicket {
    pub registrar_key: Pubkey,
    pub registrar: Registrar,
    pub voter_weight_record: VoterWeightRecord,
}

/// The table belongs to the given registrar, owner and action.
pub open spec fn table_matches(
    t: NftTicketTable,
    registrar_key: Pubkey,
    governing_token_owner: Pubkey,
    action: VoterWeightAction,
) -> bool {
    &&& t.registrar == registrar_key
    &&& t.governing_token_owner == governing_token_owner
    &&& t.action == action
}

/// The tickets the staging call starts from: the existing table's, or none.
pub open spec fn base_tickets(table: Option<NftTicketTable>) -> Seq<NftActionTicket> {
    match table {
        Some(t) => t.nft_tickets@,
        None => Seq::empty(),
    }
}

/// The capacity of the stage: an existing table keeps the capacity it was
/// created with; a fresh one is created for `max_nfts`.
pub open spec fn stage_capacity(table: Option<NftTicketTable>, max_nfts: u8) -> u8 {
    match table {
        Some(t) => t.max_nfts,
        None => max_nfts,
    }
}

/// Walking the claims in order from claim `i`: each claim resolves to a
/// (weight, asset) pair, whose ticket is written over any earlier ticket
/// for the same asset or appended within capacity; the first failure stops
/// the walk.
pub open spec fn spec_stage_cnft_claims(
    registrar: Registrar,
    governing_token_owner: Pubkey,
    claims: Seq<(VerifyCnftInfo, CompressedNftAsset)>,
    seen: Seq<Pubkey>,
    tickets: Seq<NftActionTicket>,
    capacity: u8,
    expiry_slot: u64,
    i: int,
) -> Result<Seq<NftActionTicket>, NftVoterError>
    decreases claims.len() - i,
{
    if i < 0 || i >= claims.len() {
        Ok(tickets)
    } else {
        match spec_resolve_cnft_vote_weight(
            registrar,
            governing_token_owner,
            claims[i].0,
            claims[i].1,
            seen,
        ) {
            Err(e) => Err(e),
            Ok((weight, asset_id)) => {
                if !has_mint(tickets, asset_id) && tickets.len() >= capacity as int {
                    Err(NftVoterError::NftTicketTableFull)
                } else {
                    spec_stage_cnft_claims(
                        registrar,
                        governing_token_owner,
                        claims,
                        seen.push(asset_id),
                        tickets_upserted(
                            tickets,
                            (NftActionTicket {
                                nft_mint: asset_id,
                                weight,
                                expiry: Some(expiry_slot),
                            }),
                        ),
                        capacity,
                        expiry_slot,
                        i + 1,
                    )
                }
            },
        }
    }
}

/// What one compressed staging call does: the weight record must belong to
/// the registrar's realm and mint, an existing table must belong to
/// (registrar, voter, action), and then the claims are walked in order.
pub open spec fn spec_create_cnft_action_ticket(
    accounts: CreateCnftActionTicket,
    table: Option<NftTicketTable>,
    action: VoterWeightAction,
    max_nfts: u8,
    claims: Seq<(VerifyCnftInfo, CompressedNftAsset)>,
    expiry_slot: u64,
) -> Result<Seq<NftActionTicket>, NftVoterError> {
    if accounts.voter_weight_record.realm != accounts.registrar.realm {
        Err(NftVoterError::InvalidVoterWeightRecordRealm)
    } else if accounts.voter_weight_record.governing_token_mint
        != accounts.registrar.governing_token_mint {
        Err(NftVoterError::InvalidVoterWeightRecordMint)
    } else if !(match table {
        Some(t) => table_matches(
            t,
            accounts.registrar_key,
            accounts.voter_weight_record.governing_token_owner,
            action,
        ),
        None => true,
    }) {
        Err(NftVoterError::InvalidNftTicketTable)
    } else {
        spec_stage_cnft_claims(
            accounts.registrar,
            accounts.voter_weight_record.governing_token_owner,
            claims,
            Seq::empty(),
            base_tickets(table),
            stage_capacity(table, max_nfts),
            expiry_slot,
            0,
        )
    }
}

/// Verifies each claimed compressed asset and stages a ticket
/// (asset, weight, expiry = now + the fixed window) for it, overwriting any
/// earlier ticket for the same asset. Creates the table on the first call.
/// The call either stages every claim or reports the first failure and
/// changes nothing.
pub fn create_cnft_action_ticket(
    accounts: &CreateCnftActionTicket,
    nft_tickets_table: &mut Option<NftTicketTable>,
    voter_weight_action: VoterWeightAction,
    max_nfts: u8,
    params: &Vec<(VerifyCnftInfo, CompressedNftAsset)>,
    now_slot: u64,
) -> (r: Result<(), NftVoterError>)
    requires
        accounts.registrar.wf(),
        forall|i: int| 0 <= i < params@.len() ==> metadata_bounded(params@[i].1.metadata@),
        now_slot <= u64::MAX - TICKET_EXPIRY_WINDOW,
        match *old(nft_tickets_table) {
            Some(t) => t.wf(),
            None => true,
        },
    ensures
        match spec_create_cnft_action_ticket(
            *accounts,
            *old(nft_tickets_table),
            voter_weight_action,
            max_nfts,
            params@,
            (now_slot + TICKET_EXPIRY_WINDOW) as u64,
        ) {
            Err(e) => r == Err::<(), NftVoterError>(e) && *final(nft_tickets_table) == *old(
                nft_tickets_table,
            ),
            Ok(ts) => r is Ok && match *final(nft_tickets_table) {
                Some(t) => {
                    &&& t.registrar == accounts.registrar_key
                    &&& t.governing_token_owner
                        == accounts.voter_weight_record.governing_token_owner
                    &&& t.action == voter_weight_action
                    &&& t.max_nfts == stage_capacity(*old(nft_tickets_table), max_nfts)
                    &&& t.nft_tickets@ == ts
                    &&& t.wf()
                },
                None => false,
            },
        },
{
    let registrar = &accounts.registrar;
    let governing_token_owner = accounts.voter_weight_record.governing_token_owner;
    if !pubkey_eq(&accounts.voter_weight_record.realm, &registrar.realm) {
        return Err(NftVoterError::InvalidVoterWeightRecordRealm);
    }
    if !pubkey_eq(
        &accounts.voter_weight_record.governing_token_mint,
        &registrar.governing_token_mint,
    ) {
        return Err(NftVoterError::InvalidVoterWeightRecordMint);
    }
    let capacity: u8;
    let mut tickets: Vec<NftActionTicket>;
    match nft_tickets_table.as_ref() {
        Some(t) => {
            if !(pubkey_eq(&t.registrar, &accounts.registrar_key) && pubkey_eq(
                &t.governing_token_owner,
                &governing_token_owner,
            ) && t.action == voter_weight_action) {
                return Err(NftVoterError::InvalidNftTicketTable);
            }
            capacity = t.max_nfts;
            tickets = copy_tickets(&t.nft_tickets);
        },
        None => {
            capacity = max_nfts;
            tickets = Vec::new();
            assert(tickets@ =~= base_tickets(*old(nft_tickets_table)));
        },
    }
    let ghost base = tickets@;
    let expiry_slot = now_slot + TICKET_EXPIRY_WINDOW;
    let mut unique_asset_ids: Vec<Pubkey> = Vec::new();
    let mut k: usize = 0;
    assert(unique_asset_ids@ =~= Seq::<Pubkey>::empty());
    while k < params.len()
        invariant
            k <= params@.len(),
            accounts.registrar.wf(),
            governing_token_owner == accounts.voter_weight_record.governing_token_owner,
            accounts.voter_weight_record.realm == accounts.registrar.realm,
            accounts.voter_weight_record.governing_token_mint
                == accounts.registrar.governing_token_mint,
            match *old(nft_tickets_table) {
                Some(t) => table_matches(
                    t,
                    accounts.registrar_key,
                    governing_token_owner,
                    voter_weight_action,
                ),
                None => true,
            },
            *nft_tickets_table == *old(nft_tickets_table),
            base == base_tickets(*old(nft_tickets_table)),
            capacity == stage_capacity(*old(nft_tickets_table), max_nfts),
            now_slot <= u64::MAX - TICKET_EXPIRY_WINDOW,
            expiry_slot == now_slot + TICKET_EXPIRY_WINDOW,
            forall|i: int| 0 <= i < params@.len() ==> metadata_bounded(params@[i].1.metadata@),
            unique_mints(tickets@),
            tickets@.len() <= capacity as int,
            spec_stage_cnft_claims(
                accounts.registrar,
                governing_token_owner,
                params@,
                unique_asset_ids@,
                tickets@,
                capacity,
                expiry_slot,
                k as int,
            ) == spec_stage_cnft_claims(
                accounts.registrar,
                governing_token_owner,
                params@,
                Seq::empty(),
                base,
                capacity,
                expiry_slot,
                0,
            ),
        decreases params@.len() - k,
    {
        let claim_accounts = &params[k].0;
        let claim = &params[k].1;
        let (weight, asset_id) = match resolve_cnft_vote_weight(
            &accounts.registrar,
            &governing_token_owner,
            claim_accounts,
            claim,
            &mut unique_asset_ids,
        ) {
            Ok(p) => p,
            Err(e) => {
                return Err(e);
            },
        };
        let ticket = NftActionTicket { nft_mint: asset_id, weight, expiry: Some(expiry_slot) };
        match upsert_ticket(&mut tickets, ticket, capacity) {
            Ok(u) => u,
            Err(e) => {
                return Err(e);
            },
        };
        k += 1;
    }
    *nft_tickets_table = Some(
        NftTicketTable {
            registrar: accounts.registrar_key,
            governing_token_owner,
            action: voter_weight_action,
            max_nfts: capacity,
            nft_tickets: tickets,
        },
    );
    Ok(())
}

} // verus!
