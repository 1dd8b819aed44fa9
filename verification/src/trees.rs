use vstd::prelude::*;
use crate::digest::{keccak_of_words, keccak256_words};
use crate::merkle::{spec_merkle_root_of, verify_merkle_proof};
use crate::types::{copy_proof, Bytes32, EligibleLeaf, MerkleProof};

verus! {

/// Domain separator of eligibility leaves.
pub const LEAF_DOMAIN: u64 = 7;

/// The hash under which an eligibility leaf sits in its tree.
pub open spec fn spec_eligible_leaf_hash(l: EligibleLeaf) -> Bytes32 {
    keccak_of_words(seq![LEAF_DOMAIN, l.deposit_index as u64, l.amount])
}

pub fn eligible_leaf_hash(l: &EligibleLeaf) -> (r: Bytes32)
    ensures
        r == spec_eligible_leaf_hash(*l),
{
    let mut words: Vec<u64> = Vec::new();
    words.push(LEAF_DOMAIN);
    words.push(l.deposit_index as u64);
    words.push(l.amount);
    proof {
        assert(words@ =~= seq![LEAF_DOMAIN, l.deposit_index as u64, l.amount]);
    }
    keccak256_words(&words)
}

/// The first position at or after `i` whose leaf hash equals `h`, scanning
/// `s` left to right; `None` when no such position exists.
pub open spec fn find_hash_from(s: Seq<Bytes32>, h: Bytes32, i: int) -> Option<int>
    decreases s.len() - i,
{
    if i < 0 || i >= s.len() {
        None
    } else if s[i] == h {
        Some(i)
    } else {
        find_hash_from(s, h, i + 1)
    }
}

/// The deposit index of the leaf hash `h`: its first position in the tree.
pub open spec fn spec_deposit_index_of(s: Seq<Bytes32>, h: Bytes32) -> Option<int> {
    find_hash_from(s, h, 0)
}

/// The first position at or after `i` whose eligibility leaf rewards the
/// deposit index `di`; `None` when no such position exists.
pub open spec fn find_leaf_from(s: Seq<EligibleLeaf>, di: u32, i: int) -> Option<int>
    decreases s.len() - i,
{
    if i < 0 || i >= s.len() {
        None
    } else if s[i].deposit_index == di {
        Some(i)
    } else {
        find_leaf_from(s, di, i + 1)
    }
}

/// The eligibility-leaf index of the deposit index `di`.
pub open spec fn spec_eligible_index_of(s: Seq<EligibleLeaf>, di: u32) -> Option<int> {
    find_leaf_from(s, di, 0)
}

/// A snapshot of the append-only deposit tree, as the sync collaborator
/// hands it over: one hash per deposit index, the tree's root, and the
/// inclusion proof of each leaf, in leaf order.
#[derive(Clone, Debug)]
pub struct DepositHashTree {
    pub root: Bytes32,
    pub leaves: Vec<Bytes32>,
    pub proofs: Vec<MerkleProof>,
}

impl DepositHashTree {
    /// One proof per leaf, each placing its leaf under the root, and
    /// indices fit the protocol's 32-bit width.
    pub open spec fn wf(self) -> bool {
        &&& self.proofs@.len() == self.leaves@.len()
        &&& self.leaves@.len() <= u32::MAX
        &&& forall|i: int|
            0 <= i < self.leaves@.len() ==> spec_merkle_root_of(
                self.leaves@[i],
                i as nat,
                (#[trigger] self.proofs@[i])@,
            ) == self.root
    }

    pub fn new(root: Bytes32) -> (r: DepositHashTree)
        ensures
            r.wf(),
            r.root == root,
            r.leaves@.len() == 0,
    {
        DepositHashTree { root, leaves: Vec::new(), proofs: Vec::new() }
    }

    /// Appends one deposit leaf together with its inclusion proof, after
    /// checking that the proof places the leaf under the tree's root at
    /// the next free index; a proof that does not is turned away and the
    /// tree left as it was.
    pub fn push(&mut self, leaf: Bytes32, proof: MerkleProof) -> (accepted: bool)
        requires
            old(self).wf(),
            old(self).leaves@.len() < u32::MAX,
        ensures
            final(self).wf(),
            final(self).root == old(self).root,
            accepted == (spec_merkle_root_of(leaf, old(self).leaves@.len() as nat, proof@)
                == old(self).root),
            accepted ==> final(self).leaves@ == old(self).leaves@.push(leaf),
            accepted ==> final(self).proofs@ == old(self).proofs@.push(proof),
            !accepted ==> *final(self) == *old(self),
    {
        let index = self.leaves.len() as u32;
        if verify_merkle_proof(leaf, index, &proof, &self.root) {
            self.leaves.push(leaf);
            self.proofs.push(proof);
            proof {
                assert forall|i: int| 0 <= i < self.leaves@.len() implies #[trigger] spec_merkle_root_of(
                    self.leaves@[i],
                    i as nat,
                    self.proofs@[i]@,
                ) == self.root by {
                    if i < self.leaves@.len() - 1 {
                        assert(spec_merkle_root_of(
                            old(self).leaves@[i],
                            i as nat,
                            old(self).proofs@[i]@,
                        ) == old(self).root);
                    }
                }
            }
            true
        } else {
            false
        }
    }

    pub fn get_root(&self) -> (r: Bytes32)
        ensures
            r == self.root,
    {
        self.root
    }

    /// The deposit index of the given leaf hash, or `None` when the hash
    /// is not in the tree.
    pub fn get_index(&self, h: &Bytes32) -> (r: Option<u32>)
        requires
            self.wf(),
        ensures
            match r {
                Some(i) => {
                    &&& spec_deposit_index_of(self.leaves@, *h) == Some(i as int)
                    &&& (i as int) < self.leaves@.len()
                    &&& self.leaves@[i as int] == *h
                },
                None => spec_deposit_index_of(self.leaves@, *h) is None,
            },
    {
        let mut k: usize = 0;
        while k < self.leaves.len()
            invariant
                self.wf(),
                0 <= k <= self.leaves@.len(),
                find_hash_from(self.leaves@, *h, 0) == find_hash_from(self.leaves@, *h, k as int),
            decreases self.leaves@.len() - k,
        {
            if self.leaves[k] == *h {
                return Some(k as u32);
            }
            k += 1;
        }
        None
    }

    /// The inclusion proof of the leaf at the given deposit index.
    pub fn prove(&self, index: u32) -> (r: MerkleProof)
        requires
            self.wf(),
            index < self.leaves@.len(),
        ensures
            r@ == self.proofs@[index as int]@,
    {
        copy_proof(&self.proofs[index as usize])
    }
}

/// Whether an eligibility tree covers the short-term or the long-term
/// reward window.
#[derive(Clone, Copy, Debug, PartialEq, Eq, Structural)]
pub enum EligibleTreeKind {
    ShortTerm,
    LongTerm,
}

/// A snapshot of one eligibility tree: its leaves in leaf order, the
/// tree's root, and the inclusion proof of each leaf.
#[derive(Clone, Debug)]
pub struct EligibleTree {
    pub kind: EligibleTreeKind,
    pub root: Bytes32,
    pub leaves: Vec<EligibleLeaf>,
    pub proofs: Vec<MerkleProof>,
}

impl EligibleTree {
    /// One proof per leaf, each placing its leaf's hash under the root,
    /// and indices fit the protocol's 32-bit width.
    pub open spec fn wf(self) -> bool {
        &&& self.proofs@.len() == self.leaves@.len()
        &&& self.leaves@.len() <= u32::MAX
        &&& forall|i: int|
            0 <= i < self.leaves@.len() ==> spec_merkle_root_of(
                spec_eligible_leaf_hash(self.leaves@[i]),
                i as nat,
                (#[trigger] self.proofs@[i])@,
            ) == self.root
    }

    pub fn new(kind: EligibleTreeKind, root: Bytes32) -> (r: EligibleTree)
        ensures
            r.wf(),
            r.kind == kind,
            r.root == root,
            r.leaves@.len() == 0,
    {
        EligibleTree { kind, root, leaves: Vec::new(), proofs: Vec::new() }
    }

    /// Appends one eligibility leaf together with its inclusion proof,
    /// after checking that the proof places the leaf's hash under the
    /// tree's root at the next free index; a proof that does not is
    /// turned away and the tree left as it was.
    pub fn push(&mut self, leaf: EligibleLeaf, proof: MerkleProof) -> (accepted: bool)
        requires
            old(self).wf(),
            old(self).leaves@.len() < u32::MAX,
        ensures
            final(self).wf(),
            final(self).kind == old(self).kind,
            final(self).root == old(self).root,
            accepted == (spec_merkle_root_of(
                spec_eligible_leaf_hash(leaf),
                old(self).leaves@.len() as nat,
                proof@,
            ) == old(self).root),
            accepted ==> final(self).leaves@ == old(self).leaves@.push(leaf),
            accepted ==> final(self).proofs@ == old(self).proofs@.push(proof),
            !accepted ==> *final(self) == *old(self),
    {
        let index = self.leaves.len() as u32;
        let leaf_hash = eligible_leaf_hash(&leaf);
        if verify_merkle_proof(leaf_hash, index, &proof, &self.root) {
            self.leaves.push(leaf);
            self.proofs.push(proof);
            proof {
                assert forall|i: int| 0 <= i < self.leaves@.len() implies #[trigger] spec_merkle_root_of(
                    spec_eligible_leaf_hash(self.leaves@[i]),
                    i as nat,
                    self.proofs@[i]@,
                ) == self.root by {
                    if i < self.leaves@.len() - 1 {
                        assert(spec_merkle_root_of(
                            spec_eligible_leaf_hash(old(self).leaves@[i]),
                            i as nat,
                            old(self).proofs@[i]@,
                        ) == old(self).root);
                    }
                }
            }
            true
        } else {
            false
        }
    }

    pub fn get_root(&self) -> (r: Bytes32)
        ensures
            r == self.root,
    {
        self.root
    }

    /// The leaf index rewarding the given deposit index, or `None` when
    /// that deposit is not eligible yet.
    pub fn get_leaf_index(&self, deposit_index: u32) -> (r: Option<u32>)
        requires
            self.wf(),
        ensures
            match r {
                Some(i) => {
                    &&& spec_eligible_index_of(self.leaves@, deposit_index) == Some(i as int)
                    &&& (i as int) < self.leaves@.len()
                    &&& self.leaves@[i as int].deposit_index == deposit_index
                },
                None => spec_eligible_index_of(self.leaves@, deposit_index) is None,
            },
    {
        let mut k: usize = 0;
        while k < self.leaves.len()
            invariant
                self.wf(),
                0 <= k <= self.leaves@.len(),
                find_leaf_from(self.leaves@, deposit_index, 0) == find_leaf_from(
                    self.leaves@,
                    deposit_index,
                    k as int,
                ),
            decreases self.leaves@.len() - k,
        {
            if self.leaves[k].deposit_index == deposit_index {
                return Some(k as u32);
            }
            k += 1;
        }
        None
    }

    /// The inclusion proof of the leaf at the given leaf index.
    pub fn prove(&self, index: u32) -> (r: MerkleProof)
        requires
            self.wf(),
            index < self.leaves@.len(),
        ensures
            r@ == self.proofs@[index as int]@,
    {
        copy_proof(&self.proofs[index as usize])
    }

    /// The leaf at the given leaf index.
    pub fn get_leaf(&self, index: u32) -> (r: EligibleLeaf)
        requires
            self.wf(),
            index < self.leaves@.len(),
        ensures
            r == self.leaves@[index as int],
    {
        self.leaves[index as usize]
    }
}

} // verus!
