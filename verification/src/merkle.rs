use vstd::prelude::*;
use crate::digest::{keccak_of_words, keccak256_words};
use crate::key::push_limbs;
use crate::types::{Bytes32, MerkleProof};

verus! {

/// Domain separator of inner tree nodes.
pub const NODE_DOMAIN: u64 = 6;

/// The hash of an inner tree node over its two children.
pub open spec fn spec_hash_pair(left: Bytes32, right: Bytes32) -> Bytes32 {
    keccak_of_words(seq![NODE_DOMAIN] + left.limbs() + right.limbs())
}

pub fn hash_pair(left: &Bytes32, right: &Bytes32) -> (r: Bytes32)
    ensures
        r == spec_hash_pair(*left, *right),
{
    let mut words: Vec<u64> = Vec::new();
    words.push(NODE_DOMAIN);
    push_limbs(&mut words, left);
    push_limbs(&mut words, right);
    proof {
        assert(words@ =~= seq![NODE_DOMAIN] + left.limbs() + right.limbs());
    }
    keccak256_words(&words)
}

/// The root a leaf folds up to along its sibling path: at each level the
/// index's parity says on which side the leaf's running hash stands.
pub open spec fn spec_merkle_root_of(leaf: Bytes32, index: nat, siblings: Seq<Bytes32>) -> Bytes32
    decreases siblings.len(),
{
    if siblings.len() == 0 {
        leaf
    } else {
        let joined = if index % 2 == 0 {
            spec_hash_pair(leaf, siblings[0])
        } else {
            spec_hash_pair(siblings[0], leaf)
        };
        spec_merkle_root_of(joined, index / 2, siblings.drop_first())
    }
}

pub fn compute_merkle_root(leaf: Bytes32, index: u32, proof: &MerkleProof) -> (r: Bytes32)
    ensures
        r == spec_merkle_root_of(leaf, index as nat, proof@),
{
    let mut h = leaf;
    let mut idx = index;
    let mut k: usize = 0;
    proof {
        assert(proof.siblings@.skip(0) =~= proof.siblings@);
    }
    while k < proof.siblings.len()
        invariant
            0 <= k <= proof.siblings@.len(),
            spec_merkle_root_of(leaf, index as nat, proof.siblings@) == spec_merkle_root_of(
                h,
                idx as nat,
                proof.siblings@.skip(k as int),
            ),
        decreases proof.siblings@.len() - k,
    {
        let ghost prev_h = h;
        let ghost prev_idx = idx;
        let ghost prev_k = k as int;
        let s = proof.siblings[k];
        h = if idx % 2 == 0 {
            hash_pair(&h, &s)
        } else {
            hash_pair(&s, &h)
        };
        idx = idx / 2;
        k += 1;
        proof {
            let siblings = proof.siblings@;
            assert(siblings.skip(prev_k)[0] == siblings[prev_k]);
            assert(siblings.skip(prev_k).drop_first() =~= siblings.skip(prev_k + 1));
            assert(spec_merkle_root_of(prev_h, prev_idx as nat, siblings.skip(prev_k))
                == spec_merkle_root_of(h, idx as nat, siblings.skip(prev_k + 1)));
        }
    }
    proof {
        assert(proof.siblings@.skip(proof.siblings@.len() as int).len() == 0);
    }
    h
}

/// Whether an inclusion proof places the leaf, at its index, under the
/// given root.
pub fn verify_merkle_proof(leaf: Bytes32, index: u32, proof: &MerkleProof, root: &Bytes32) -> (r:
    bool)
    ensures
        r == (spec_merkle_root_of(leaf, index as nat, proof@) == *root),
{
    let computed = compute_merkle_root(leaf, index, proof);
    computed == *root
}

} // verus!
