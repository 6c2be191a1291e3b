//! The collection registry: per-(realm, governing token mint) configuration
//! mapping a collection to a weight multiplier and a declared population
//! size. Mutated only by the realm authority; entries are superseded, never
//! deleted.

use vstd::prelude::*;
use vstd::arithmetic::mul::lemma_mul_nonnegative;
use crate::error::NftVoterError;
use crate::pubkey::{pubkey_eq, Pubkey};
use crate::voter_weight_record::MaxVoterWeightRecord;

verus! {

/// Voting weight configuration of one collection: a verified asset of
/// `collection` contributes `weight`; `size` is the declared population,
/// used only for the maximum-weight computation. A zero weight is legal and
/// means the asset counts as owned but contributes nothing.
#[derive(Clone, Copy, PartialEq, Debug)]
pub struct CollectionConfig {
    pub collection: Pubkey,
    pub size: u32,
    pub weight: u64,
}

/// NFT voting configuration for one (realm, governing token mint) pair,
/// holding up to `max_collections` collection configurations.
#[derive(Clone, Debug)]
pub struct Registrar {
    pub governance_program_id: Pubkey,
    pub realm: Pubkey,
    pub governing_token_mint: Pubkey,
    pub collection_configs: Vec<CollectionConfig>,
    pub max_collections: u8,
}

/// Some configuration for `collection` stands in `configs`.
pub open spec fn has_collection(configs: Seq<CollectionConfig>, collection: Pubkey) -> bool {
    exists|i: int| 0 <= i < configs.len() && configs[i].collection == collection
}

/// The index of the configuration for `collection` (unique in a
/// well-formed registrar).
pub open spec fn index_of_collection(configs: Seq<CollectionConfig>, collection: Pubkey) -> int {
    choose|i: int| 0 <= i < configs.len() && configs[i].collection == collection
}

/// The configuration stored for `collection`.
pub open spec fn config_of(configs: Seq<CollectionConfig>, collection: Pubkey) -> CollectionConfig {
    configs[index_of_collection(configs, collection)]
}

/// `configs` with `c` written over the entry for its collection, or
/// appended when no such entry stands.
pub open spec fn upserted(configs: Seq<CollectionConfig>, c: CollectionConfig) -> Seq<
    CollectionConfig,
> {
    if has_collection(configs, c.collection) {
        configs.update(index_of_collection(configs, c.collection), c)
    } else {
        configs.push(c)
    }
}

/// The sum of weight * size over the first `i` configurations.
pub open spec fn max_weight_sum_to(configs: Seq<CollectionConfig>, i: int) -> int
    decreases i,
{
    if i <= 0 {
        0
    } else {
        max_weight_sum_to(configs, i - 1) + configs[i - 1].weight * configs[i - 1].size
    }
}

/// The attainable weight ceiling: the sum of weight * size over all
/// configurations.
pub open spec fn max_weight_sum(configs: Seq<CollectionConfig>) -> int {
    max_weight_sum_to(configs, configs.len() as int)
}

/// Partial sums of the weight ceiling never decrease: every term is a
/// product of non-negative values.
pub proof fn lemma_max_weight_sum_nondecreasing(configs: Seq<CollectionConfig>, i: int, j: int)
    requires
        0 <= i <= j,
    ensures
        max_weight_sum_to(configs, i) <= max_weight_sum_to(configs, j),
    decreases j,
{
    if i < j {
        lemma_max_weight_sum_nondecreasing(configs, i, j - 1);
        lemma_mul_nonnegative(configs[j - 1].weight as int, configs[j - 1].size as int);
    }
}

impl Registrar {
    /// Well-formedness: the registry respects its capacity and holds at
    /// most one configuration per collection.
    pub open spec fn wf(&self) -> bool {
        &&& self.collection_configs@.len() <= self.max_collections as int
        &&& forall|i: int, j: int|
            0 <= i < j < self.collection_configs@.len() ==> self.collection_configs@[i].collection
                != self.collection_configs@[j].collection
    }
}

/// A fresh registrar with no collections configured.
pub fn create_registrar(
    governance_program_id: Pubkey,
    realm: Pubkey,
    governing_token_mint: Pubkey,
    max_collections: u8,
) -> (r: Registrar)
    ensures
        r.wf(),
        r.governance_program_id == governance_program_id,
        r.realm == realm,
        r.governing_token_mint == governing_token_mint,
        r.collection_configs@ =~= Seq::<CollectionConfig>::empty(),
        r.max_collections == max_collections,
{
    Registrar {
        governance_program_id,
        realm,
        governing_token_mint,
        collection_configs: Vec::new(),
        max_collections,
    }
}

/// The index of the first configuration for `collection`, if any.
fn find_config_index(configs: &Vec<CollectionConfig>, collection: &Pubkey) -> (r: Option<usize>)
    ensures
        match r {
            Some(i) => 0 <= i < configs@.len() && configs@[i as int].collection == *collection,
            None => !has_collection(configs@, *collection),
        },
{
    let mut i: usize = 0;
    while i < configs.len()
        invariant
            i <= configs@.len(),
            forall|j: int| 0 <= j < i ==> configs@[j].collection != *collection,
        decreases configs@.len() - i,
    {
        if pubkey_eq(&configs[i].collection, collection) {
            return Some(i);
        }
        i += 1;
    }
    None
}

impl Registrar {
    /// Resolves a claimed collection membership to the configured weight:
    /// the membership must be verified, and the collection must be
    /// configured here. No partial matches, no default weight.
    pub fn resolve_collection_weight(&self, collection: &Pubkey, collection_verified: bool) -> (r:
        Result<u64, NftVoterError>)
        requires
            self.wf(),
        ensures
            !collection_verified ==> r == Err::<u64, NftVoterError>(
                NftVoterError::CollectionMustBeVerified,
            ),
            collection_verified && !has_collection(self.collection_configs@, *collection) ==> r
                == Err::<u64, NftVoterError>(NftVoterError::CollectionNotFound),
            collection_verified && has_collection(self.collection_configs@, *collection) ==> r
                == Ok::<u64, NftVoterError>(config_of(self.collection_configs@, *collection).weight),
    {
        if !collection_verified {
            return Err(NftVoterError::CollectionMustBeVerified);
        }
        match find_config_index(&self.collection_configs, collection) {
            Some(i) => {
                proof {
                    let j = index_of_collection(self.collection_configs@, *collection);
                    assert(0 <= j < self.collection_configs@.len()
                        && self.collection_configs@[j].collection == *collection);
                    assert(j == i);
                }
                Ok(self.collection_configs[i].weight)
            },
            None => Err(NftVoterError::CollectionNotFound),
        }
    }
}

/// The weight ceiling of the given configurations, with overflow-checked
/// arithmetic.
fn compute_max_voter_weight(configs: &Vec<CollectionConfig>) -> (r: Result<u64, NftVoterError>)
    ensures
        match r {
            Ok(t) => max_weight_sum(configs@) <= u64::MAX && t == max_weight_sum(configs@),
            Err(e) => e == NftVoterError::VoterWeightOverflow && max_weight_sum(configs@)
                > u64::MAX,
        },
{
    let mut total: u64 = 0;
    let mut i: usize = 0;
    while i < configs.len()
        invariant
            i <= configs@.len(),
            total == max_weight_sum_to(configs@, i as int),
        decreases configs@.len() - i,
    {
        let product = match configs[i].weight.checked_mul(configs[i].size as u64) {
            Some(p) => p,
            None => {
                proof {
                    lemma_max_weight_sum_nondecreasing(configs@, i + 1, configs@.len() as int);
                }
                return Err(NftVoterError::VoterWeightOverflow);
            },
        };
        total = match total.checked_add(product) {
            Some(t) => t,
            None => {
                proof {
                    lemma_max_weight_sum_nondecreasing(configs@, i + 1, configs@.len() as int);
                }
                return Err(NftVoterError::VoterWeightOverflow);
            },
        };
        i += 1;
    }
    Ok(total)
}

/// A copy of the configurations, for all-or-nothing mutation.
fn copy_configs(configs: &Vec<CollectionConfig>) -> (r: Vec<CollectionConfig>)
    ensures
        r@ == configs@,
{
    let mut r: Vec<CollectionConfig> = Vec::new();
    let mut i: usize = 0;
    while i < configs.len()
        invariant
            i <= configs@.len(),
            r@ =~= configs@.take(i as int),
        decreases configs@.len() - i,
    {
        r.push(configs[i]);
        i += 1;
    }
    proof {
        assert(r@ =~= configs@);
    }
    r
}

/// Creates or supersedes the configuration for one collection and refreshes
/// the realm's weight ceiling. Only the realm authority may call this; the
/// call either commits both records or changes nothing.
pub fn configure_collection(
    registrar: &mut Registrar,
    max_voter_weight_record: &mut MaxVoterWeightRecord,
    realm_authority_is_signer: bool,
    collection: Pubkey,
    weight: u64,
    size: u32,
) -> (r: Result<(), NftVoterError>)
    requires
        old(registrar).wf(),
    ensures
        final(registrar).wf(),
        r is Err ==> *final(registrar) == *old(registrar) && *final(max_voter_weight_record)
            == *old(max_voter_weight_record),
        (r == Err::<(), NftVoterError>(NftVoterError::InvalidRealmAuthority) <==>
            !realm_authority_is_signer),
        (r == Err::<(), NftVoterError>(NftVoterError::MaximumCollectionsReached) <==>
            realm_authority_is_signer && !has_collection(
                old(registrar).collection_configs@,
                collection,
            ) && old(registrar).collection_configs@.len() >= old(registrar).max_collections as int),
        (r == Err::<(), NftVoterError>(NftVoterError::VoterWeightOverflow) <==>
            realm_authority_is_signer && !(!has_collection(
                old(registrar).collection_configs@,
                collection,
            ) && old(registrar).collection_configs@.len() >= old(registrar).max_collections as int)
            && max_weight_sum(
                upserted(
                    old(registrar).collection_configs@,
                    (CollectionConfig { collection, size, weight }),
                ),
            ) > u64::MAX),
        (r is Ok <==> realm_authority_is_signer && !(!has_collection(
            old(registrar).collection_configs@,
            collection,
        ) && old(registrar).collection_configs@.len() >= old(registrar).max_collections as int)
            && max_weight_sum(
            upserted(
                old(registrar).collection_configs@,
                (CollectionConfig { collection, size, weight }),
            ),
        ) <= u64::MAX),
        r is Ok ==> {
            &&& final(registrar).collection_configs@ == upserted(
                old(registrar).collection_configs@,
                (CollectionConfig { collection, size, weight }),
            )
            &&& final(registrar).governance_program_id == old(registrar).governance_program_id
            &&& final(registrar).realm == old(registrar).realm
            &&& final(registrar).governing_token_mint == old(registrar).governing_token_mint
            &&& final(registrar).max_collections == old(registrar).max_collections
            &&& final(max_voter_weight_record).max_voter_weight == max_weight_sum(
                final(registrar).collection_configs@,
            )
            &&& final(max_voter_weight_record).max_voter_weight_expiry is None
            &&& final(max_voter_weight_record).realm == old(max_voter_weight_record).realm
            &&& final(max_voter_weight_record).governing_token_mint == old(
                max_voter_weight_record,
            ).governing_token_mint
        },
{
    if !realm_authority_is_signer {
        return Err(NftVoterError::InvalidRealmAuthority);
    }
    let cfg = CollectionConfig { collection, size, weight };
    let mut new_configs = copy_configs(&registrar.collection_configs);
    match find_config_index(&registrar.collection_configs, &collection) {
        Some(i) => {
            proof {
                let j = index_of_collection(registrar.collection_configs@, collection);
                assert(0 <= j < registrar.collection_configs@.len()
                    && registrar.collection_configs@[j].collection == collection);
                assert(j == i);
            }
            new_configs[i] = cfg;
        },
        None => {
            if new_configs.len() >= registrar.max_collections as usize {
                return Err(NftVoterError::MaximumCollectionsReached);
            }
            new_configs.push(cfg);
        },
    }
    assert(new_configs@ == upserted(registrar.collection_configs@, cfg));
    let total = match compute_max_voter_weight(&new_configs) {
        Ok(t) => t,
        Err(e) => {
            return Err(e);
        },
    };
    registrar.collection_configs = new_configs;
    max_voter_weight_record.max_voter_weight = total;
    max_voter_weight_record.max_voter_weight_expiry = None;
    Ok(())
}

} // verus!
