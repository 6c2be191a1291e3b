//! The vote dedup ledger: one-shot marker records keyed by (proposal,
//! asset). The host stores each marker at a deterministic location derived
//! from that pair and creates it atomically if absent; the ledger models
//! that store as a sequence of records with insert-if-absent semantics,
//! which is the system's only concurrency-control point.

use vstd::prelude::*;
use crate::error::NftVoterError;
use crate::pubkey::{pubkey_eq, Pubkey};
use crate::voter_weight_record::VoterWeightRecord;

verus! {

/// One vote marker: its existence alone is the fact that the asset has been
/// consumed for the proposal. Not directional; the vote choice lives with
/// the governance collaborator.
#[derive(Clone, Copy, PartialEq, Debug)]
pub struct CompressedNftVoteRecord {
    /// Proposal which was voted on.
    pub proposal: Pubkey,
    /// The asset which was used for the vote.
    pub asset_id: Pubkey,
    /// The voter who cast this vote.
    pub governing_token_owner: Pubkey,
}

/// Per-asset weight record of the compressed-asset flow: the verified
/// weight of one asset, credited to its owner while a call group consumes
/// it.
#[derive(Clone, PartialEq, Debug)]
pub struct CnftWeightRecord {
    pub nft_owner: Pubkey,
    pub weight: u64,
}

/// A marker for (proposal, asset_id) stands in `records`.
pub open spec fn ledger_contains(
    records: Seq<CompressedNftVoteRecord>,
    proposal: Pubkey,
    asset_id: Pubkey,
) -> bool {
    exists|i: int|
        0 <= i < records.len() && records[i].proposal == proposal && records[i].asset_id
            == asset_id
}

/// The index of the marker for (proposal, asset_id), unique in a
/// well-formed ledger.
pub open spec fn index_of_marker(
    records: Seq<CompressedNftVoteRecord>,
    proposal: Pubkey,
    asset_id: Pubkey,
) -> int {
    choose|i: int|
        0 <= i < records.len() && records[i].proposal == proposal && records[i].asset_id
            == asset_id
}

/// At most one marker per (proposal, asset) pair.
pub open spec fn ledger_unique(records: Seq<CompressedNftVoteRecord>) -> bool {
    forall|i: int, j: int|
        0 <= i < j < records.len() ==> !(records[i].proposal == records[j].proposal
            && records[i].asset_id == records[j].asset_id)
}

/// The marker store. Creation of a marker is all-or-nothing and fails if
/// the marker already exists, giving exactly-once semantics per asset per
/// proposal.
pub struct NftVoteLedger {
    pub records: Vec<CompressedNftVoteRecord>,
}

impl NftVoteLedger {
    /// Well-formedness: no (proposal, asset) pair occurs twice.
    pub open spec fn wf(&self) -> bool {
        ledger_unique(self.records@)
    }

    /// An empty ledger.
    pub fn new() -> (r: NftVoteLedger)
        ensures
            r.wf(),
            r.records@ =~= Seq::<CompressedNftVoteRecord>::empty(),
    {
        NftVoteLedger { records: Vec::new() }
    }

    /// Whether a marker for (proposal, asset_id) exists.
    pub fn contains_marker(&self, proposal: &Pubkey, asset_id: &Pubkey) -> (r: bool)
        ensures
            r == ledger_contains(self.records@, *proposal, *asset_id),
    {
        let mut i: usize = 0;
        while i < self.records.len()
            invariant
                i <= self.records@.len(),
                forall|j: int|
                    0 <= j < i ==> !(self.records@[j].proposal == *proposal
                        && self.records@[j].asset_id == *asset_id),
            decreases self.records@.len() - i,
        {
            if pubkey_eq(&self.records[i].proposal, proposal) && pubkey_eq(
                &self.records[i].asset_id,
                asset_id,
            ) {
                return true;
            }
            i += 1;
        }
        false
    }

    /// Creates the marker for (proposal, asset_id), or fails without any
    /// effect when one already stands.
    pub fn admit_vote(
        &mut self,
        proposal: Pubkey,
        asset_id: Pubkey,
        governing_token_owner: Pubkey,
    ) -> (r: Result<(), NftVoterError>)
        ensures
            ledger_contains(old(self).records@, proposal, asset_id) ==> r == Err::<
                (),
                NftVoterError,
            >(NftVoterError::NftAlreadyVoted) && *final(self) == *old(self),
            !ledger_contains(old(self).records@, proposal, asset_id) ==> r == Ok::<
                (),
                NftVoterError,
            >(()) && final(self).records@ == old(self).records@.push(
                (CompressedNftVoteRecord { proposal, asset_id, governing_token_owner }),
            ),
            old(self).wf() ==> final(self).wf(),
    {
        if self.contains_marker(&proposal, &asset_id) {
            return Err(NftVoterError::NftAlreadyVoted);
        }
        self.records.push(CompressedNftVoteRecord { proposal, asset_id, governing_token_owner });
        Ok(())
    }

    /// Deletes the marker for (proposal, asset_id), if any, re-enabling a
    /// future vote with the same asset on the same proposal, and resets the
    /// voter weight record's stored total: the relinquished weight may not
    /// be reused, so a following cast starts from zero rather than
    /// accumulating onto the stale total. Returns whether a marker stood.
    /// The host returns the marker's storage to the beneficiary; that is
    /// outside this model.
    pub fn relinquish_nft_vote(
        &mut self,
        proposal: &Pubkey,
        asset_id: &Pubkey,
        voter_weight_record: &mut VoterWeightRecord,
    ) -> (removed: bool)
        requires
            old(self).wf(),
        ensures
            final(self).wf(),
            removed == ledger_contains(old(self).records@, *proposal, *asset_id),
            removed ==> final(self).records@ == old(self).records@.remove(
                index_of_marker(old(self).records@, *proposal, *asset_id),
            ),
            !removed ==> *final(self) == *old(self),
            !ledger_contains(final(self).records@, *proposal, *asset_id),
            forall|p2: Pubkey, a2: Pubkey|
                !(p2 == *proposal && a2 == *asset_id) ==> ledger_contains(
                    final(self).records@,
                    p2,
                    a2,
                ) == ledger_contains(old(self).records@, p2, a2),
            *final(voter_weight_record) == (VoterWeightRecord {
                voter_weight: 0,
                voter_weight_expiry: None,
                ..*old(voter_weight_record)
            }),
    {
        voter_weight_record.voter_weight = 0;
        voter_weight_record.voter_weight_expiry = None;
        let mut i: usize = 0;
        while i < self.records.len()
            invariant
                *self == *old(self),
                *voter_weight_record == (VoterWeightRecord {
                    voter_weight: 0,
                    voter_weight_expiry: None,
                    ..*old(voter_weight_record)
                }),
                ledger_unique(self.records@),
                i <= self.records@.len(),
                forall|j: int|
                    0 <= j < i ==> !(self.records@[j].proposal == *proposal
                        && self.records@[j].asset_id == *asset_id),
            decreases self.records@.len() - i,
        {
            if pubkey_eq(&self.records[i].proposal, proposal) && pubkey_eq(
                &self.records[i].asset_id,
                asset_id,
            ) {
                proof {
                    let k = index_of_marker(self.records@, *proposal, *asset_id);
                    assert(0 <= k < self.records@.len() && self.records@[k].proposal == *proposal
                        && self.records@[k].asset_id == *asset_id);
                    assert(k == i);
                }
                let ghost pre = self.records@;
                self.records.remove(i);
                proof {
                    lemma_remove_keeps_others(pre, i as int, *proposal, *asset_id);
                }
                return true;
            }
            i += 1;
        }
        assert(!ledger_contains(self.records@, *proposal, *asset_id));
        false
    }
}

/// Removing the unique marker at `k` removes containment for its own pair
/// and no other.
proof fn lemma_remove_keeps_others(
    records: Seq<CompressedNftVoteRecord>,
    k: int,
    proposal: Pubkey,
    asset_id: Pubkey,
)
    requires
        ledger_unique(records),
        0 <= k < records.len(),
        records[k].proposal == proposal,
        records[k].asset_id == asset_id,
    ensures
        ledger_unique(records.remove(k)),
        !ledger_contains(records.remove(k), proposal, asset_id),
        forall|p2: Pubkey, a2: Pubkey|
            !(p2 == proposal && a2 == asset_id) ==> ledger_contains(records.remove(k), p2, a2)
                == ledger_contains(records, p2, a2),
{
    let removed = records.remove(k);
    assert forall|i: int| 0 <= i < removed.len() && i < k implies removed[i] == records[i] by {}
    assert forall|i: int| k <= i < removed.len() implies removed[i] == records[i + 1] by {}
    assert(ledger_unique(removed));
    assert forall|i: int|
        0 <= i < removed.len() implies !(removed[i].proposal == proposal && removed[i].asset_id
        == asset_id) by {
        let oi: int = if i < k {
            i
        } else {
            i + 1
        };
        assert(removed[i] == records[oi]);
        assert(oi != k);
    }
    assert forall|p2: Pubkey, a2: Pubkey|
        !(p2 == proposal && a2 == asset_id) && ledger_contains(records, p2, a2) implies
        ledger_contains(removed, p2, a2) by {
        let j = choose|j: int|
            0 <= j < records.len() && records[j].proposal == p2 && records[j].asset_id == a2;
        assert(j != k);
        if j < k {
            assert(removed[j] == records[j]);
        } else {
            assert(removed[j - 1] == records[j]);
        }
    }
    assert forall|p2: Pubkey, a2: Pubkey|
        !(p2 == proposal && a2 == asset_id) && ledger_contains(removed, p2, a2) implies
        ledger_contains(records, p2, a2) by {
        let j = choose|j: int|
            0 <= j < removed.len() && removed[j].proposal == p2 && removed[j].asset_id == a2;
        let oj: int = if j < k {
            j
        } else {
            j + 1
        };
        assert(records[oj] == removed[j]);
    }
}

/// Exactly-once admission: once a marker for a (proposal, asset) pair has
/// been created, the marker stands — so any further admission for the pair
/// fails — until it is relinquished, after which the pair is free again.
pub proof fn lemma_exactly_once_admission(
    records: Seq<CompressedNftVoteRecord>,
    rec: CompressedNftVoteRecord,
)
    requires
        ledger_unique(records),
        !ledger_contains(records, rec.proposal, rec.asset_id),
    ensures
        ledger_contains(records.push(rec), rec.proposal, rec.asset_id),
        ledger_unique(records.push(rec)),
        !ledger_contains(
            records.push(rec).remove(
                index_of_marker(records.push(rec), rec.proposal, rec.asset_id),
            ),
            rec.proposal,
            rec.asset_id,
        ),
{
    let pushed = records.push(rec);
    assert(pushed[records.len() as int] == rec);
    assert(ledger_contains(pushed, rec.proposal, rec.asset_id));
    assert forall|i: int, j: int|
        0 <= i < j < pushed.len() implies !(pushed[i].proposal == pushed[j].proposal
        && pushed[i].asset_id == pushed[j].asset_id) by {
        if j < records.len() {
            assert(pushed[i] == records[i] && pushed[j] == records[j]);
        } else {
            assert(pushed[i] == records[i] && pushed[j] == rec);
            assert(!(records[i].proposal == rec.proposal && records[i].asset_id == rec.asset_id));
        }
    }
    let k = index_of_marker(pushed, rec.proposal, rec.asset_id);
    assert(0 <= k < pushed.len() && pushed[k].proposal == rec.proposal && pushed[k].asset_id
        == rec.asset_id);
    lemma_remove_keeps_others(pushed, k, rec.proposal, rec.asset_id);
}

} // verus!
