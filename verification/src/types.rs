use vstd::prelude::*;

verus! {

/// A 256-bit word carried as four 64-bit limbs, most significant first.
/// Hashes, private keys, public keys and salts all travel in this form.
#[derive(Clone, Copy, Debug, PartialEq, Eq, Structural)]
pub struct Bytes32 {
    pub w0: u64,
    pub w1: u64,
    pub w2: u64,
    pub w3: u64,
}

impl Bytes32 {
    /// The all-zero word: the default hash that seeds a claim chain.
    pub open spec fn zero_spec() -> Bytes32 {
        Bytes32 { w0: 0, w1: 0, w2: 0, w3: 0 }
    }

    pub fn zero() -> (r: Bytes32)
        ensures
            r == Bytes32::zero_spec(),
    {
        Bytes32 { w0: 0, w1: 0, w2: 0, w3: 0 }
    }

    /// The limbs in order, for serialization into a digest.
    pub open spec fn limbs(self) -> Seq<u64> {
        seq![self.w0, self.w1, self.w2, self.w3]
    }
}

/// A 160-bit account address, carried as two 64-bit limbs and one 32-bit
/// limb, most significant first.
#[derive(Clone, Copy, Debug, PartialEq, Eq, Structural)]
pub struct Address {
    pub a0: u64,
    pub a1: u64,
    pub a2: u32,
}

impl Address {
    /// The limbs in order, widened, for serialization into a digest.
    pub open spec fn limbs(self) -> Seq<u64> {
        seq![self.a0, self.a1, self.a2 as u64]
    }
}

/// One deposit as the chain records it: the hash binding the depositor's
/// public key and salt, the deposited token, and the amount.
#[derive(Clone, Copy, Debug, PartialEq, Eq, Structural)]
pub struct Deposit {
    pub pubkey_salt_hash: Bytes32,
    pub token_index: u32,
    pub amount: u64,
}

/// A chain-observed deposit event attached to one key.
#[derive(Clone, Copy, Debug, PartialEq, Eq, Structural)]
pub struct Deposited {
    pub deposit: Deposit,
    pub tx_nonce: u64,
    pub deposit_index: u32,
}

/// One leaf of an eligibility tree: which deposit it rewards, and how much.
#[derive(Clone, Copy, Debug, PartialEq, Eq, Structural)]
pub struct EligibleLeaf {
    pub deposit_index: u32,
    pub amount: u64,
}

/// An inclusion proof as the tree collaborator hands it over: the sibling
/// hashes along the path from a leaf to the root.
#[derive(Clone, Debug, PartialEq, Eq)]
pub struct MerkleProof {
    pub siblings: Vec<Bytes32>,
}

impl View for MerkleProof {
    type V = Seq<Bytes32>;

    open spec fn view(&self) -> Seq<Bytes32> {
        self.siblings@
    }
}

/// A fresh proof value carrying the same siblings.
pub fn copy_proof(p: &MerkleProof) -> (r: MerkleProof)
    ensures
        r@ == p@,
{
    let mut siblings: Vec<Bytes32> = Vec::new();
    let mut k: usize = 0;
    while k < p.siblings.len()
        invariant
            0 <= k <= p.siblings@.len(),
            siblings@ =~= p.siblings@.subrange(0, k as int),
        decreases p.siblings@.len() - k,
    {
        siblings.push(p.siblings[k]);
        k += 1;
        proof {
            assert(siblings@ =~= p.siblings@.subrange(0, k as int));
        }
    }
    proof {
        assert(p.siblings@.subrange(0, p.siblings@.len() as int) =~= p.siblings@);
    }
    MerkleProof { siblings }
}

/// A point-in-time view, per key, of deposit indices partitioned by
/// lifecycle stage. Rebuilt fresh on every sync; never mutated in place.
#[derive(Clone, Debug, PartialEq, Eq)]
pub struct AssetsStatus {
    pub senders_deposits: Vec<Deposited>,
    pub pending_indices: Vec<u32>,
    pub rejected_indices: Vec<u32>,
    pub not_withdrawn_indices: Vec<u32>,
    pub not_claimed_indices: Vec<u32>,
}

} // verus!
