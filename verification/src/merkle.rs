//! Membership proofs against an append-only Merkle accumulator. The library
//! does not maintain the tree; it only recomputes a root from a claimed leaf
//! and a proof path and compares it with the root it was given.

use vstd::prelude::*;
use crate::hashes::{hash_node_pair, node_hash_of};
use crate::pubkey::Node;

verus! {

/// The root reached by walking `proof` upward from `leaf`, which sits at
/// position `index` of its level: an even position is a left child, an odd
/// one a right child, and each step halves the position.
pub open spec fn root_of(leaf: Node, index: nat, proof: Seq<Node>) -> Node
    decreases proof.len(),
{
    if proof.len() == 0 {
        leaf
    } else {
        let parent = if index % 2 == 0 {
            node_hash_of(leaf, proof[0])
        } else {
            node_hash_of(proof[0], leaf)
        };
        root_of(parent, index / 2, proof.drop_first())
    }
}

/// Walks the proof path from the leaf up and returns the root it reaches.
pub fn recompute_root(leaf: &Node, index: u32, proof: &Vec<Node>) -> (r: Node)
    ensures
        r == root_of(*leaf, index as nat, proof@),
{
    let mut node: Node = *leaf;
    let mut idx: u32 = index;
    let mut i: usize = 0;
    assert(proof@.skip(0) =~= proof@);
    while i < proof.len()
        invariant
            i <= proof@.len(),
            root_of(node, idx as nat, proof@.skip(i as int)) == root_of(
                *leaf,
                index as nat,
                proof@,
            ),
        decreases proof@.len() - i,
    {
        assert(proof@.skip(i as int)[0] == proof@[i as int]);
        assert(proof@.skip(i as int).drop_first() =~= proof@.skip(i as int + 1));
        if idx % 2 == 0 {
            node = hash_node_pair(&node, &proof[i]);
        } else {
            node = hash_node_pair(&proof[i], &node);
        }
        idx = idx / 2;
        i = i + 1;
    }
    assert(proof@.skip(proof@.len() as int) =~= Seq::<Node>::empty());
    node
}

} // verus!
