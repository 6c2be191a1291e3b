//! The persisted byte layout of the library's records: little-endian
//! scalars, a one-byte tag in front of an optional value, a 32-bit count in
//! front of a list, and a reserved tail on the ticket table for future
//! fields. The host stores exactly these bytes in its accounts; writing
//! them into an account is the host's business and stays outside.

use vstd::prelude::*;
use vstd::bytes::{spec_u32_to_le_bytes, spec_u64_to_le_bytes, u32_to_le_bytes, u64_to_le_bytes};
use crate::nft_action_ticket::{NftActionTicket, NftTicketTable};
use crate::nft_vote_record::{CnftWeightRecord, CompressedNftVoteRecord};

verus! {

/// An optional slot value: a zero tag, or a one tag followed by the value.
pub open spec fn spec_option_u64_bytes(v: Option<u64>) -> Seq<u8> {
    match v {
        Some(x) => seq![1u8] + spec_u64_to_le_bytes(x),
        None => seq![0u8],
    }
}

/// One staged ticket: the asset, the weight, the optional expiry.
pub open spec fn spec_nft_action_ticket_bytes(t: NftActionTicket) -> Seq<u8> {
    t.nft_mint@ + spec_u64_to_le_bytes(t.weight) + spec_option_u64_bytes(t.expiry)
}

/// The first `i` tickets, laid end to end.
pub open spec fn spec_tickets_bytes(tickets: Seq<NftActionTicket>, i: int) -> Seq<u8>
    decreases i,
{
    if i <= 0 {
        Seq::empty()
    } else {
        spec_tickets_bytes(tickets, i - 1) + spec_nft_action_ticket_bytes(tickets[i - 1])
    }
}

/// A ticket table: registrar, owner, the tickets behind a 32-bit count, and
/// a reserved tail of 128 zero bytes.
pub open spec fn spec_nft_tickets_table_bytes(t: NftTicketTable) -> Seq<u8> {
    t.registrar@ + t.governing_token_owner@ + spec_u32_to_le_bytes(
        t.nft_tickets@.len() as u32,
    ) + spec_tickets_bytes(t.nft_tickets@, t.nft_tickets@.len() as int) + Seq::new(
        128,
        |i: int| 0u8,
    )
}

/// A per-asset weight record: the owner, then the weight.
pub open spec fn spec_cnft_weight_record_bytes(r: CnftWeightRecord) -> Seq<u8> {
    r.nft_owner@ + spec_u64_to_le_bytes(r.weight)
}

/// A vote marker behind its discriminator: proposal, asset, voter.
pub open spec fn spec_vote_record_bytes(
    discriminator: [u8; 8],
    r: CompressedNftVoteRecord,
) -> Seq<u8> {
    discriminator@ + r.proposal@ + r.asset_id@ + r.governing_token_owner@
}

/// Appends the bytes of a slice.
fn push_slice(out: &mut Vec<u8>, bytes: &[u8])
    ensures
        final(out)@ == old(out)@ + bytes@,
{
    let mut i: usize = 0;
    while i < bytes.len()
        invariant
            i <= bytes@.len(),
            out@ =~= old(out)@ + bytes@.take(i as int),
        decreases bytes@.len() - i,
    {
        out.push(bytes[i]);
        assert(bytes@.take(i as int).push(bytes@[i as int]) =~= bytes@.take(i + 1));
        i += 1;
    }
    assert(out@ =~= old(out)@ + bytes@);
}

/// Appends one ticket in the account layout.
pub fn serialize_nft_action_ticket(ticket: &NftActionTicket, out: &mut Vec<u8>)
    ensures
        final(out)@ == old(out)@ + spec_nft_action_ticket_bytes(*ticket),
{
    push_slice(out, ticket.nft_mint.as_slice());
    let weight_bytes = u64_to_le_bytes(ticket.weight);
    push_slice(out, weight_bytes.as_slice());
    match ticket.expiry {
        Some(e) => {
            out.push(1);
            let expiry_bytes = u64_to_le_bytes(e);
            push_slice(out, expiry_bytes.as_slice());
        },
        None => {
            out.push(0);
        },
    }
    assert(out@ =~= old(out)@ + spec_nft_action_ticket_bytes(*ticket));
}

/// Serializes a ticket table in the account layout. The count fits its
/// 32-bit field for any table within the capacity a single byte can name.
pub fn serialize_nft_tickets_table(table: &NftTicketTable) -> (r: Vec<u8>)
    requires
        table.nft_tickets@.len() <= u32::MAX,
    ensures
        r@ == spec_nft_tickets_table_bytes(*table),
{
    let mut out: Vec<u8> = Vec::new();
    push_slice(&mut out, table.registrar.as_slice());
    push_slice(&mut out, table.governing_token_owner.as_slice());
    let count_bytes = u32_to_le_bytes(table.nft_tickets.len() as u32);
    push_slice(&mut out, count_bytes.as_slice());
    let ghost header = out@;
    let mut i: usize = 0;
    while i < table.nft_tickets.len()
        invariant
            i <= table.nft_tickets@.len(),
            out@ == header + spec_tickets_bytes(table.nft_tickets@, i as int),
        decreases table.nft_tickets@.len() - i,
    {
        serialize_nft_action_ticket(&table.nft_tickets[i], &mut out);
        i += 1;
    }
    let reserved = [0u8; 128];
    assert(reserved@ =~= Seq::new(128, |j: int| 0u8));
    push_slice(&mut out, reserved.as_slice());
    proof {
        assert(out@ =~= spec_nft_tickets_table_bytes(*table));
    }
    out
}

/// Serializes a per-asset weight record in the account layout.
pub fn serialize_cnft_weight_record(record: &CnftWeightRecord) -> (r: Vec<u8>)
    ensures
        r@ == spec_cnft_weight_record_bytes(*record),
{
    let mut out: Vec<u8> = Vec::new();
    push_slice(&mut out, record.nft_owner.as_slice());
    let weight_bytes = u64_to_le_bytes(record.weight);
    push_slice(&mut out, weight_bytes.as_slice());
    assert(out@ =~= spec_cnft_weight_record_bytes(*record));
    out
}

/// Serializes a vote marker in the account layout, behind the discriminator
/// the host stores in front of it.
pub fn serialize_compressed_nft_vote_record(
    discriminator: &[u8; 8],
    record: &CompressedNftVoteRecord,
) -> (r: Vec<u8>)
    ensures
        r@ == spec_vote_record_bytes(*discriminator, *record),
{
    let mut out: Vec<u8> = Vec::new();
    push_slice(&mut out, discriminator.as_slice());
    push_slice(&mut out, record.proposal.as_slice());
    push_slice(&mut out, record.asset_id.as_slice());
    push_slice(&mut out, record.governing_token_owner.as_slice());
    assert(out@ =~= spec_vote_record_bytes(*discriminator, *record));
    out
}

} // verus!
