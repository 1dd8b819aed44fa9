use vstd::prelude::*;
use crate::digest::{keccak_of_words, keccak256_words};
use crate::error::MiningError;
use crate::key::{
    derive_pubkey_from_private_key, derive_salt_from_private_key_nonce, push_limbs, spec_pubkey_of,
    spec_salt_of, Key,
};
use crate::merkle::spec_merkle_root_of;
use crate::trees::{
    spec_deposit_index_of, spec_eligible_index_of, spec_eligible_leaf_hash, DepositHashTree,
    EligibleTree, EligibleTreeKind,
};
use crate::types::{Address, Bytes32, Deposit, Deposited, EligibleLeaf, MerkleProof};

verus! {

/// Domain separators of the two digests this module forms.
pub const DEPOSIT_DOMAIN: u64 = 4;
pub const CLAIM_DOMAIN: u64 = 5;

/// The most claims one batch may carry.
pub const MAX_CLAIMS: usize = 10;

/// The words a deposit leaf hashes over.
pub open spec fn spec_deposit_words(d: Deposit) -> Seq<u64> {
    seq![DEPOSIT_DOMAIN] + d.pubkey_salt_hash.limbs() + seq![d.token_index as u64, d.amount]
}

/// The hash keying a deposit into the deposit tree.
pub open spec fn spec_deposit_hash(d: Deposit) -> Bytes32 {
    keccak_of_words(spec_deposit_words(d))
}

pub fn deposit_hash(d: &Deposit) -> (r: Bytes32)
    ensures
        r == spec_deposit_hash(*d),
{
    let mut words: Vec<u64> = Vec::new();
    words.push(DEPOSIT_DOMAIN);
    push_limbs(&mut words, &d.pubkey_salt_hash);
    words.push(d.token_index as u64);
    words.push(d.amount);
    proof {
        assert(words@ =~= spec_deposit_words(*d));
    }
    keccak256_words(&words)
}

/// The assembled proof-input bundle for one deposit's eligibility claim,
/// including both inclusion proofs and the chain link to the prior claim.
#[derive(Clone, Debug, PartialEq, Eq)]
pub struct ClaimWitness {
    pub deposit_tree_root: Bytes32,
    pub deposit_index: u32,
    pub deposit_merkle_proof: MerkleProof,
    pub deposit: Deposit,
    pub eligible_tree_root: Bytes32,
    pub eligible_index: u32,
    pub eligible_merkle_proof: MerkleProof,
    pub eligible_leaf: EligibleLeaf,
    pub pubkey: Bytes32,
    pub salt: Bytes32,
    pub recipient: Address,
    pub prev_claim_hash: Bytes32,
    pub new_claim_hash: Bytes32,
}

/// The words a claim hashes over: every value of the witness except the
/// inclusion proofs and the produced hash itself.
pub open spec fn spec_claim_words(w: ClaimWitness) -> Seq<u64> {
    seq![CLAIM_DOMAIN] + w.prev_claim_hash.limbs() + w.deposit_tree_root.limbs()
        + seq![w.deposit_index as u64] + w.deposit.pubkey_salt_hash.limbs()
        + seq![w.deposit.token_index as u64, w.deposit.amount] + w.eligible_tree_root.limbs()
        + seq![
        w.eligible_index as u64,
        w.eligible_leaf.deposit_index as u64,
        w.eligible_leaf.amount,
    ] + w.pubkey.limbs() + w.salt.limbs() + w.recipient.limbs()
}

/// The hash a claim witness produces, chaining the next claim to it.
pub open spec fn spec_claim_hash(w: ClaimWitness) -> Bytes32 {
    keccak_of_words(spec_claim_words(w))
}

pub fn compute_claim_hash(w: &ClaimWitness) -> (r: Bytes32)
    ensures
        r == spec_claim_hash(*w),
{
    let mut words: Vec<u64> = Vec::new();
    words.push(CLAIM_DOMAIN);
    push_limbs(&mut words, &w.prev_claim_hash);
    push_limbs(&mut words, &w.deposit_tree_root);
    words.push(w.deposit_index as u64);
    push_limbs(&mut words, &w.deposit.pubkey_salt_hash);
    words.push(w.deposit.token_index as u64);
    words.push(w.deposit.amount);
    push_limbs(&mut words, &w.eligible_tree_root);
    words.push(w.eligible_index as u64);
    words.push(w.eligible_leaf.deposit_index as u64);
    words.push(w.eligible_leaf.amount);
    push_limbs(&mut words, &w.pubkey);
    push_limbs(&mut words, &w.salt);
    words.push(w.recipient.a0);
    words.push(w.recipient.a1);
    words.push(w.recipient.a2 as u64);
    proof {
        assert(words@ =~= spec_claim_words(*w));
    }
    keccak256_words(&words)
}

/// Builds one witness from its parts and produces its claim hash.
pub fn assemble_claim(
    deposit_tree_root: Bytes32,
    deposit_index: u32,
    deposit_merkle_proof: MerkleProof,
    deposit: Deposit,
    eligible_tree_root: Bytes32,
    eligible_index: u32,
    eligible_merkle_proof: MerkleProof,
    eligible_leaf: EligibleLeaf,
    pubkey: Bytes32,
    salt: Bytes32,
    recipient: Address,
    prev_claim_hash: Bytes32,
) -> (w: ClaimWitness)
    ensures
        w.deposit_tree_root == deposit_tree_root,
        w.deposit_index == deposit_index,
        w.deposit_merkle_proof == deposit_merkle_proof,
        w.deposit == deposit,
        w.eligible_tree_root == eligible_tree_root,
        w.eligible_index == eligible_index,
        w.eligible_merkle_proof == eligible_merkle_proof,
        w.eligible_leaf == eligible_leaf,
        w.pubkey == pubkey,
        w.salt == salt,
        w.recipient == recipient,
        w.prev_claim_hash == prev_claim_hash,
        w.new_claim_hash == spec_claim_hash(w),
{
    let mut w = ClaimWitness {
        deposit_tree_root,
        deposit_index,
        deposit_merkle_proof,
        deposit,
        eligible_tree_root,
        eligible_index,
        eligible_merkle_proof,
        eligible_leaf,
        pubkey,
        salt,
        recipient,
        prev_claim_hash,
        new_claim_hash: Bytes32::zero(),
    };
    let ghost w0 = w;
    let h = compute_claim_hash(&w);
    w.new_claim_hash = h;
    proof {
        assert(spec_claim_words(w) =~= spec_claim_words(w0));
    }
    w
}

/// The trees a claim batch is built against: the deposit tree and the two
/// eligibility windows.
#[derive(Clone, Debug)]
pub struct TreeState {
    pub deposit_hash_tree: DepositHashTree,
    pub short_term_eligible_tree: EligibleTree,
    pub long_term_eligible_tree: EligibleTree,
}

impl TreeState {
    pub open spec fn wf(self) -> bool {
        &&& self.deposit_hash_tree.wf()
        &&& self.short_term_eligible_tree.wf()
        &&& self.long_term_eligible_tree.wf()
    }

    /// The eligibility tree the caller's policy selected.
    pub open spec fn eligible_tree_spec(self, kind: EligibleTreeKind) -> EligibleTree {
        if kind == EligibleTreeKind::ShortTerm {
            self.short_term_eligible_tree
        } else {
            self.long_term_eligible_tree
        }
    }

    pub fn eligible_tree(&self, kind: EligibleTreeKind) -> (r: &EligibleTree)
        ensures
            *r == self.eligible_tree_spec(kind),
    {
        if kind == EligibleTreeKind::ShortTerm {
            &self.short_term_eligible_tree
        } else {
            &self.long_term_eligible_tree
        }
    }
}

/// Whether both lookups of one event succeed against the snapshot: its
/// deposit hash is in the deposit tree, and that deposit index is in the
/// selected eligibility tree.
pub open spec fn spec_event_resolves(dht: DepositHashTree, et: EligibleTree, e: Deposited) -> bool {
    match spec_deposit_index_of(dht.leaves@, spec_deposit_hash(e.deposit)) {
        Option::None => false,
        Option::Some(di) => spec_eligible_index_of(et.leaves@, di as u32) is Some,
    }
}

/// What one built witness says of one input event: roots passed through,
/// both indices the trees' own lookups, both proofs the trees' proofs at
/// those indices and each placing its leaf under the root passed in, the
/// leaf fetched, the key's public key and recipient, the salt bound to
/// the event's nonce, and the produced hash.
pub open spec fn spec_witness_ok(
    dht: DepositHashTree,
    et: EligibleTree,
    key: Key,
    e: Deposited,
    w: ClaimWitness,
) -> bool {
    &&& w.deposit_tree_root == dht.root
    &&& spec_deposit_index_of(dht.leaves@, spec_deposit_hash(e.deposit)) == Some(
        w.deposit_index as int,
    )
    &&& w.deposit_index < dht.proofs@.len()
    &&& w.deposit_merkle_proof@ == dht.proofs@[w.deposit_index as int]@
    &&& spec_merkle_root_of(
        spec_deposit_hash(e.deposit),
        w.deposit_index as nat,
        w.deposit_merkle_proof@,
    ) == w.deposit_tree_root
    &&& w.deposit == e.deposit
    &&& w.eligible_tree_root == et.root
    &&& spec_eligible_index_of(et.leaves@, w.deposit_index) == Some(w.eligible_index as int)
    &&& w.eligible_index < et.leaves@.len()
    &&& w.eligible_merkle_proof@ == et.proofs@[w.eligible_index as int]@
    &&& w.eligible_leaf == et.leaves@[w.eligible_index as int]
    &&& spec_merkle_root_of(
        spec_eligible_leaf_hash(w.eligible_leaf),
        w.eligible_index as nat,
        w.eligible_merkle_proof@,
    ) == w.eligible_tree_root
    &&& w.pubkey == spec_pubkey_of(key.deposit_private_key)
    &&& w.salt == spec_salt_of(key.deposit_private_key, e.tx_nonce)
    &&& w.recipient == key.withdrawal_address
    &&& w.new_claim_hash == spec_claim_hash(w)
}

/// The replay-protection backbone: the first witness chains from the zero
/// hash, and each later witness from its predecessor's produced hash.
pub open spec fn spec_chained(ws: Seq<ClaimWitness>) -> bool {
    &&& (ws.len() > 0 ==> ws[0].prev_claim_hash == Bytes32::zero_spec())
    &&& forall|i: int| 0 < i < ws.len() ==> ws[i].prev_claim_hash == ws[i - 1].new_claim_hash
}

/// Transforms a batch of deposit events for one key into a validated,
/// hash-chained sequence of claim witnesses against the deposit tree and
/// the selected eligibility tree. Rejects an empty batch and one over
/// `MAX_CLAIMS` before any tree access; fails on the first event either
/// lookup cannot resolve; otherwise returns one witness per event, in
/// input order, chained from the zero hash.
#[verifier::loop_isolation(false)]
pub fn generate_claim_witness(
    trees: &TreeState,
    key: &Key,
    kind: EligibleTreeKind,
    events: &[Deposited],
) -> (r: Result<Vec<ClaimWitness>, MiningError>)
    requires
        trees.wf(),
    ensures
        events@.len() == 0 ==> (r matches Err(MiningError::ValidationError(m)) && m@
            == "No event to generate witness"@),
        events@.len() > MAX_CLAIMS ==> (r matches Err(MiningError::ValidationError(m)) && m@
            == "Max 10 events to generate witness"@),
        r is Ok <==> (0 < events@.len() <= MAX_CLAIMS && (forall|i: int|
            0 <= i < events@.len() ==> spec_event_resolves(
                trees.deposit_hash_tree,
                trees.eligible_tree_spec(kind),
                events@[i],
            ))),
        (0 < events@.len() <= MAX_CLAIMS && !(forall|i: int|
            0 <= i < events@.len() ==> spec_event_resolves(
                trees.deposit_hash_tree,
                trees.eligible_tree_spec(kind),
                events@[i],
            ))) ==> (r matches Err(MiningError::LookupError(_))),
        r matches Ok(ws) ==> {
            &&& ws@.len() == events@.len()
            &&& spec_chained(ws@)
            &&& forall|i: int|
                0 <= i < events@.len() ==> spec_witness_ok(
                    trees.deposit_hash_tree,
                    trees.eligible_tree_spec(kind),
                    *key,
                    events@[i],
                    ws@[i],
                )
        },
{
    if events.len() == 0 {
        return Err(MiningError::ValidationError("No event to generate witness".to_owned()));
    }
    if events.len() > MAX_CLAIMS {
        return Err(MiningError::ValidationError("Max 10 events to generate witness".to_owned()));
    }
    let deposit_tree_root = trees.deposit_hash_tree.get_root();
    let eligible_tree = trees.eligible_tree(kind);
    let eligible_tree_root = eligible_tree.get_root();
    let pubkey = derive_pubkey_from_private_key(&key.deposit_private_key);
    let recipient = key.withdrawal_address;
    let mut witnesses: Vec<ClaimWitness> = Vec::new();
    let mut prev_claim_hash = Bytes32::zero();
    let mut idx: usize = 0;
    while idx < events.len()
        invariant
            0 <= idx <= events@.len(),
            witnesses@.len() == idx,
            spec_chained(witnesses@),
            prev_claim_hash == if idx == 0 {
                Bytes32::zero_spec()
            } else {
                witnesses@[idx - 1].new_claim_hash
            },
            forall|j: int|
                0 <= j < idx ==> spec_event_resolves(
                    trees.deposit_hash_tree,
                    trees.eligible_tree_spec(kind),
                    events@[j],
                ),
            forall|j: int|
                0 <= j < idx ==> spec_witness_ok(
                    trees.deposit_hash_tree,
                    trees.eligible_tree_spec(kind),
                    *key,
                    events@[j],
                    witnesses@[j],
                ),
        decreases events@.len() - idx,
    {
        let event = &events[idx];
        let dh = deposit_hash(&event.deposit);
        let deposit_index = match trees.deposit_hash_tree.get_index(&dh) {
            Some(i) => i,
            None => {
                proof {
                    assert(!spec_event_resolves(
                        trees.deposit_hash_tree,
                        trees.eligible_tree_spec(kind),
                        events@[idx as int],
                    ));
                }
                return Err(
                    MiningError::LookupError(
                        "Deposit hash not found in the deposit tree".to_owned(),
                    ),
                );
            },
        };
        let deposit_merkle_proof = trees.deposit_hash_tree.prove(deposit_index);
        let eligible_index = match eligible_tree.get_leaf_index(deposit_index) {
            Some(i) => i,
            None => {
                proof {
                    assert(!spec_event_resolves(
                        trees.deposit_hash_tree,
                        trees.eligible_tree_spec(kind),
                        events@[idx as int],
                    ));
                }
                return Err(
                    MiningError::LookupError("Deposit is not eligible in this window".to_owned()),
                );
            },
        };
        let eligible_merkle_proof = eligible_tree.prove(eligible_index);
        let eligible_leaf = eligible_tree.get_leaf(eligible_index);
        proof {
            assert(spec_merkle_root_of(
                trees.deposit_hash_tree.leaves@[deposit_index as int],
                deposit_index as nat,
                trees.deposit_hash_tree.proofs@[deposit_index as int]@,
            ) == trees.deposit_hash_tree.root);
            if kind == EligibleTreeKind::ShortTerm {
                assert(spec_merkle_root_of(
                    spec_eligible_leaf_hash(
                        trees.short_term_eligible_tree.leaves@[eligible_index as int],
                    ),
                    eligible_index as nat,
                    trees.short_term_eligible_tree.proofs@[eligible_index as int]@,
                ) == trees.short_term_eligible_tree.root);
            } else {
                assert(spec_merkle_root_of(
                    spec_eligible_leaf_hash(
                        trees.long_term_eligible_tree.leaves@[eligible_index as int],
                    ),
                    eligible_index as nat,
                    trees.long_term_eligible_tree.proofs@[eligible_index as int]@,
                ) == trees.long_term_eligible_tree.root);
            }
            assert(spec_merkle_root_of(
                spec_eligible_leaf_hash(
                    trees.eligible_tree_spec(kind).leaves@[eligible_index as int],
                ),
                eligible_index as nat,
                trees.eligible_tree_spec(kind).proofs@[eligible_index as int]@,
            ) == trees.eligible_tree_spec(kind).root);
        }
        let salt = derive_salt_from_private_key_nonce(&key.deposit_private_key, event.tx_nonce);
        let w = assemble_claim(
            deposit_tree_root,
            deposit_index,
            deposit_merkle_proof,
            event.deposit,
            eligible_tree_root,
            eligible_index,
            eligible_merkle_proof,
            eligible_leaf,
            pubkey,
            salt,
            recipient,
            prev_claim_hash,
        );
        prev_claim_hash = w.new_claim_hash;
        witnesses.push(w);
        idx += 1;
    }
    Ok(witnesses)
}

} // verus!
