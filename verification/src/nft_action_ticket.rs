//! The action ticket stage: a bounded, per-(registrar, owner, action)
//! table of recently verified (asset, weight, expiry) tuples. It lets a
//! voter accumulate verification results across several calls before they
//! are folded into a weight record; tickets go stale a fixed window after
//! they are staged.

use vstd::prelude::*;
use vstd::slice::slice_to_vec;
use vstd::string::StringSliceAdditionalSpecFns;
use crate::error::NftVoterError;
use crate::pubkey::{pubkey_eq, Pubkey};
use crate::tools::{find_program_address, program_address_of, seeds_view, PROGRAM_ID};
use crate::voter_weight_record::VoterWeightAction;

verus! {

/// How many slots a staged ticket stays fresh: a ticket staged at slot s
/// may be finalized up to slot s + 10.
pub const TICKET_EXPIRY_WINDOW: u64 = 10;

/// The serialized size of an account discriminator.
pub const DISCRIMINATOR_SIZE: usize = 8;

/// One verified result: this asset is owned by the staging voter and is
/// worth this weight, as of the slot `expiry` was computed from.
#[derive(Clone, Copy, PartialEq, Debug)]
pub struct NftActionTicket {
    pub nft_mint: Pubkey,
    pub weight: u64,
    pub expiry: Option<u64>,
}

impl NftActionTicket {
    /// Serialized footprint of one ticket: discriminator, mint, weight,
    /// option tag and expiry.
    pub fn get_space() -> (r: usize)
        ensures
            r == 57,
    {
        DISCRIMINATOR_SIZE + 32 + 8 + 1 + 8
    }
}

/// The staging table for one (registrar, owner, action) triple. The action
/// kind and the capacity are baked by the host into the table's address and
/// allocation; here they are explicit fields.
#[derive(Clone, Debug)]
pub struct NftTicketTable {
    /// The registrar (by address) this table belongs to.
    pub registrar: Pubkey,
    /// The voter whose verification results are staged here.
    pub governing_token_owner: Pubkey,
    /// The action kind the staged weight may be spent on.
    pub action: VoterWeightAction,
    /// The largest number of tickets the table was created for.
    pub max_nfts: u8,
    /// The staged tickets, at most one per asset.
    pub nft_tickets: Vec<NftActionTicket>,
}

impl NftTicketTable {
    /// Serialized footprint of a table created for `max_nfts` tickets.
    pub fn get_space(max_nfts: u8) -> (r: usize)
        ensures
            r == 204 + 57 * (max_nfts as int),
    {
        DISCRIMINATOR_SIZE + 32 * 2 + 4 + (max_nfts as usize) * NftActionTicket::get_space() + 128
    }

    /// Well-formedness: at most one ticket per asset, within capacity.
    pub open spec fn wf(&self) -> bool {
        &&& unique_mints(self.nft_tickets@)
        &&& self.nft_tickets@.len() <= self.max_nfts as int
    }

    /// An empty table for one (registrar, owner, action) triple.
    pub fn new(
        registrar: Pubkey,
        governing_token_owner: Pubkey,
        action: VoterWeightAction,
        max_nfts: u8,
    ) -> (r: NftTicketTable)
        ensures
            r.wf(),
            r.registrar == registrar,
            r.governing_token_owner == governing_token_owner,
            r.action == action,
            r.max_nfts == max_nfts,
            r.nft_tickets@ =~= Seq::<NftActionTicket>::empty(),
    {
        NftTicketTable {
            registrar,
            governing_token_owner,
            action,
            max_nfts,
            nft_tickets: Vec::new(),
        }
    }
}

/// Some ticket for `mint` stands in `tickets`.
pub open spec fn has_mint(tickets: Seq<NftActionTicket>, mint: Pubkey) -> bool {
    exists|i: int| 0 <= i < tickets.len() && tickets[i].nft_mint == mint
}

/// The index of the ticket for `mint`, unique under `unique_mints`.
pub open spec fn index_of_mint(tickets: Seq<NftActionTicket>, mint: Pubkey) -> int {
    choose|i: int| 0 <= i < tickets.len() && tickets[i].nft_mint == mint
}

/// No asset appears twice.
pub open spec fn unique_mints(tickets: Seq<NftActionTicket>) -> bool {
    forall|i: int, j: int|
        0 <= i < j < tickets.len() ==> tickets[i].nft_mint != tickets[j].nft_mint
}

/// `tickets` with `t` written over the entry for its asset, or appended
/// when no such entry stands: later writes for the same asset overwrite
/// earlier ones, they do not accumulate.
pub open spec fn tickets_upserted(tickets: Seq<NftActionTicket>, t: NftActionTicket) -> Seq<
    NftActionTicket,
> {
    if has_mint(tickets, t.nft_mint) {
        tickets.update(index_of_mint(tickets, t.nft_mint), t)
    } else {
        tickets.push(t)
    }
}

/// A ticket is fresh at `now_slot` when it carries an expiry at or after
/// `now_slot`; a ticket without an expiry counts as stale.
pub open spec fn ticket_fresh(t: NftActionTicket, now_slot: u64) -> bool {
    match t.expiry {
        Some(e) => e >= now_slot,
        None => false,
    }
}

/// The sum of the weights of the first `i` tickets.
pub open spec fn tickets_weight_sum_to(tickets: Seq<NftActionTicket>, i: int) -> int
    decreases i,
{
    if i <= 0 {
        0
    } else {
        tickets_weight_sum_to(tickets, i - 1) + tickets[i - 1].weight
    }
}

/// The sum of the weights of all tickets.
pub open spec fn tickets_weight_sum(tickets: Seq<NftActionTicket>) -> int {
    tickets_weight_sum_to(tickets, tickets.len() as int)
}

/// The seeds a ticket table's address is derived from: the ticket type,
/// the registrar and the owner. The bump is searched for, not supplied.
pub fn get_nft_tickets_table_seeds(ticket_type: &str, registrar: &Pubkey, owner: &Pubkey) -> (r:
    Vec<Vec<u8>>)
    ensures
        seeds_view(r@) =~= seq![ticket_type.spec_bytes(), registrar@, owner@],
{
    let mut r: Vec<Vec<u8>> = Vec::new();
    r.push(slice_to_vec(ticket_type.as_bytes()));
    r.push(slice_to_vec(registrar.as_slice()));
    r.push(slice_to_vec(owner.as_slice()));
    r
}

/// The ticket table address and bump for the given type, registrar and
/// owner, when some bump yields one.
pub fn get_nft_tickets_table_address(ticket_type: &str, registrar: &Pubkey, owner: &Pubkey) -> (r:
    Option<(Pubkey, u8)>)
    ensures
        r == program_address_of(
            seq![ticket_type.spec_bytes(), registrar@, owner@],
            PROGRAM_ID,
        ),
{
    let seeds = get_nft_tickets_table_seeds(ticket_type, registrar, owner);
    find_program_address(&seeds, &PROGRAM_ID)
}

/// Whether one of the first `upto` tickets is for `mint`.
pub(crate) fn mint_in_prefix(tickets: &Vec<NftActionTicket>, upto: usize, mint: &Pubkey) -> (r:
    bool)
    requires
        upto <= tickets@.len(),
    ensures
        r == exists|j: int| 0 <= j < upto && tickets@[j].nft_mint == *mint,
{
    let mut j: usize = 0;
    while j < upto
        invariant
            j <= upto <= tickets@.len(),
            forall|k: int| 0 <= k < j ==> tickets@[k].nft_mint != *mint,
        decreases upto - j,
    {
        if pubkey_eq(&tickets[j].nft_mint, mint) {
            return true;
        }
        j += 1;
    }
    false
}

/// A copy of the staged tickets, for all-or-nothing mutation.
pub fn copy_tickets(tickets: &Vec<NftActionTicket>) -> (r: Vec<NftActionTicket>)
    ensures
        r@ == tickets@,
{
    let mut r: Vec<NftActionTicket> = Vec::new();
    let mut i: usize = 0;
    while i < tickets.len()
        invariant
            i <= tickets@.len(),
            r@ =~= tickets@.take(i as int),
        decreases tickets@.len() - i,
    {
        r.push(tickets[i]);
        i += 1;
    }
    proof {
        assert(r@ =~= tickets@);
    }
    r
}

/// Writes `ticket` over the entry for its asset, or appends it; appending
/// beyond the capacity the table was created for is refused.
pub fn upsert_ticket(
    tickets: &mut Vec<NftActionTicket>,
    ticket: NftActionTicket,
    max_nfts: u8,
) -> (r: Result<(), NftVoterError>)
    requires
        unique_mints(old(tickets)@),
        old(tickets)@.len() <= max_nfts as int,
    ensures
        unique_mints(final(tickets)@),
        final(tickets)@.len() <= max_nfts as int,
        (r == Err::<(), NftVoterError>(NftVoterError::NftTicketTableFull) <==> !has_mint(
            old(tickets)@,
            ticket.nft_mint,
        ) && old(tickets)@.len() >= max_nfts as int),
        r is Err ==> r == Err::<(), NftVoterError>(NftVoterError::NftTicketTableFull)
            && final(tickets)@ == old(tickets)@,
        r is Ok ==> final(tickets)@ == tickets_upserted(old(tickets)@, ticket),
{
    let mut i: usize = 0;
    while i < tickets.len()
        invariant
            *tickets == *old(tickets),
            unique_mints(tickets@),
            tickets@.len() <= max_nfts as int,
            i <= tickets@.len(),
            forall|j: int| 0 <= j < i ==> tickets@[j].nft_mint != ticket.nft_mint,
        decreases tickets@.len() - i,
    {
        if pubkey_eq(&tickets[i].nft_mint, &ticket.nft_mint) {
            proof {
                let k = index_of_mint(tickets@, ticket.nft_mint);
                assert(0 <= k < tickets@.len() && tickets@[k].nft_mint == ticket.nft_mint);
                assert(k == i);
            }
            tickets[i] = ticket;
            return Ok(());
        }
        i += 1;
    }
    assert(!has_mint(tickets@, ticket.nft_mint));
    if tickets.len() >= max_nfts as usize {
        return Err(NftVoterError::NftTicketTableFull);
    }
    tickets.push(ticket);
    Ok(())
}

} // verus!
