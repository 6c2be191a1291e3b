//! Deterministic address derivation for the host's storage: the ticket
//! table of a (registrar, owner, action) triple lives at an address derived
//! from those seeds under this program's id. The host guarantees that
//! creation at such an address is atomic and collision-proof; here only the
//! derivation itself is modeled.

use vstd::prelude::*;
use vstd::slice::slice_to_vec;
use vstd::string::StringSliceAdditionalSpecFns;
use crate::error::NftVoterError;
use crate::pubkey::Pubkey;

verus! {

/// The address under which the voter program is deployed; ticket tables
/// and vote markers are derived under it.
pub const PROGRAM_ID: Pubkey = [
    234, 146, 105, 48, 94, 10, 109, 210, 32, 113, 133, 113, 56, 41, 233, 245, 163, 97, 80, 160,
    254, 52, 100, 150, 133, 96, 54, 67, 177, 245, 80, 99,
];

/// The address and bump found for the given seeds under the given program
/// id, when some bump yields one.
pub uninterp spec fn program_address_of(seeds: Seq<Seq<u8>>, program_id: Pubkey) -> Option<
    (Pubkey, u8),
>;

/// The address derived from the given seeds (the bump among them) under the
/// given program id, when the derivation lands off the curve and the seeds
/// are within the host's length limits.
pub uninterp spec fn created_program_address_of(seeds: Seq<Seq<u8>>, program_id: Pubkey) -> Option<
    Pubkey,
>;

/// The byte strings of the seeds.
pub open spec fn seeds_view(seeds: Seq<Vec<u8>>) -> Seq<Seq<u8>> {
    seeds.map_values(|s: Vec<u8>| s@)
}

/// Relies on Pubkey::try_find_program_address: the derived address and bump
/// depend on the seeds and the program id alone; None when no bump yields
/// an address.
#[verifier::external_body]
pub(crate) fn find_program_address(seeds: &Vec<Vec<u8>>, program_id: &Pubkey) -> (r: Option<
    (Pubkey, u8),
>)
    ensures
        r == program_address_of(seeds_view(seeds@), *program_id),
{
    let refs: Vec<&[u8]> = seeds.iter().map(|s| s.as_slice()).collect();
    let pid = solana_program::pubkey::Pubkey::new_from_array(*program_id);
    solana_program::pubkey::Pubkey::try_find_program_address(&refs, &pid).map(
        |kb: (solana_program::pubkey::Pubkey, u8)| (kb.0.to_bytes(), kb.1),
    )
}

/// Relies on Pubkey::create_program_address: the derived address depends on
/// the seeds and the program id alone; seed-length and on-curve failures
/// come back as None.
#[verifier::external_body]
pub(crate) fn create_program_address(seeds: &Vec<Vec<u8>>, program_id: &Pubkey) -> (r: Option<
    Pubkey,
>)
    ensures
        r == created_program_address_of(seeds_view(seeds@), *program_id),
{
    let refs: Vec<&[u8]> = seeds.iter().map(|s| s.as_slice()).collect();
    let pid = solana_program::pubkey::Pubkey::new_from_array(*program_id);
    solana_program::pubkey::Pubkey::create_program_address(&refs, &pid).ok().map(
        |k: solana_program::pubkey::Pubkey| k.to_bytes(),
    )
}

/// The seeds a ticket table's address is derived from, the bump included:
/// the ticket type, the registrar, the owner and the bump seed.
pub fn get_nft_tickets_table_seeds(
    ticket_type: &str,
    registrar: &Pubkey,
    owner: &Pubkey,
    bump: u8,
) -> (r: Vec<Vec<u8>>)
    ensures
        seeds_view(r@) =~= seq![
            ticket_type.spec_bytes(),
            registrar@,
            owner@,
            seq![bump],
        ],
{
    let mut r: Vec<Vec<u8>> = Vec::new();
    r.push(slice_to_vec(ticket_type.as_bytes()));
    r.push(slice_to_vec(registrar.as_slice()));
    r.push(slice_to_vec(owner.as_slice()));
    let mut bump_seed: Vec<u8> = Vec::new();
    bump_seed.push(bump);
    assert(bump_seed@ =~= seq![bump]);
    r.push(bump_seed);
    r
}

/// The address of the ticket table for the given type, registrar and owner
/// with the given bump, or an error when those seeds derive no address.
pub fn get_nft_tickets_table_address(
    ticket_type: &str,
    registrar: &Pubkey,
    owner: &Pubkey,
    bump: u8,
) -> (r: Result<Pubkey, NftVoterError>)
    ensures
        r == (match created_program_address_of(
            seq![ticket_type.spec_bytes(), registrar@, owner@, seq![bump]],
            PROGRAM_ID,
        ) {
            Some(k) => Ok::<Pubkey, NftVoterError>(k),
            None => Err(NftVoterError::InvalidSeeds),
        }),
{
    let seeds = get_nft_tickets_table_seeds(ticket_type, registrar, owner, bump);
    match create_program_address(&seeds, &PROGRAM_ID) {
        Some(k) => Ok(k),
        None => Err(NftVoterError::InvalidSeeds),
    }
}

} // verus!
