use mining_core::error::MiningError;
use mining_core::key::{derive_pubkey_from_private_key, derive_salt_from_private_key_nonce, Key};
use mining_core::merkle::{hash_pair, verify_merkle_proof};
use mining_core::trees::{eligible_leaf_hash, DepositHashTree, EligibleTree, EligibleTreeKind};
use mining_core::types::{Bytes32, Deposit, Deposited, EligibleLeaf, MerkleProof};
use mining_core::witness::{deposit_hash, generate_claim_witness, TreeState, MAX_CLAIMS};

fn word(n: u64) -> Bytes32 {
    Bytes32 { w0: n, w1: n.wrapping_mul(3), w2: n.wrapping_add(7), w3: n ^ 0xabcd }
}

fn event(n: u64) -> Deposited {
    Deposited {
        deposit: Deposit { pubkey_salt_hash: word(100 + n), token_index: n as u32, amount: 1000 + n },
        tx_nonce: n,
        deposit_index: n as u32,
    }
}

/// Builds a zero-padded binary tree over the leaf hashes, as the sync
/// collaborator would, returning its root and one proof per leaf.
fn build_padded_tree(leaf_hashes: &[Bytes32]) -> (Bytes32, Vec<MerkleProof>) {
    let zero = Bytes32 { w0: 0, w1: 0, w2: 0, w3: 0 };
    let mut width = 1usize;
    while width < leaf_hashes.len() {
        width *= 2;
    }
    let mut base = leaf_hashes.to_vec();
    base.resize(width, zero);
    let mut levels = vec![base];
    while levels.last().unwrap().len() > 1 {
        let prev = levels.last().unwrap();
        let mut next = Vec::new();
        for pair in prev.chunks(2) {
            next.push(hash_pair(&pair[0], &pair[1]));
        }
        levels.push(next);
    }
    let root = levels.last().unwrap()[0];
    let mut proofs = Vec::new();
    for i in 0..leaf_hashes.len() {
        let mut siblings = Vec::new();
        let mut idx = i;
        for level in &levels[..levels.len() - 1] {
            siblings.push(level[idx ^ 1]);
            idx /= 2;
        }
        proofs.push(MerkleProof { siblings });
    }
    (root, proofs)
}

/// Trees where the first `n` events resolve: the deposit tree holds their
/// deposit hashes in order, and the short-term window rewards each index.
fn consistent_trees(n: u64) -> TreeState {
    let deposit_leaves: Vec<Bytes32> = (0..n).map(|i| deposit_hash(&event(i).deposit)).collect();
    let (deposit_root, deposit_proofs) = build_padded_tree(&deposit_leaves);
    let mut deposit_hash_tree = DepositHashTree::new(deposit_root);
    for (leaf, proof) in deposit_leaves.iter().zip(deposit_proofs) {
        assert!(deposit_hash_tree.push(*leaf, proof));
    }

    let eligible_leaves: Vec<EligibleLeaf> =
        (0..n).map(|i| EligibleLeaf { deposit_index: i as u32, amount: 50 + i }).collect();
    let eligible_hashes: Vec<Bytes32> = eligible_leaves.iter().map(eligible_leaf_hash).collect();
    let (eligible_root, eligible_proofs) = build_padded_tree(&eligible_hashes);
    let mut short_term_eligible_tree =
        EligibleTree::new(EligibleTreeKind::ShortTerm, eligible_root);
    for (leaf, proof) in eligible_leaves.iter().zip(eligible_proofs) {
        assert!(short_term_eligible_tree.push(*leaf, proof));
    }

    let long_term_eligible_tree = EligibleTree::new(EligibleTreeKind::LongTerm, word(902));
    TreeState { deposit_hash_tree, short_term_eligible_tree, long_term_eligible_tree }
}

#[test]
fn a_mismatched_proof_is_turned_away() {
    let mut tree = DepositHashTree::new(word(900));
    let bad = MerkleProof { siblings: vec![word(1)] };
    assert!(!tree.push(word(2), bad));
    assert_eq!(tree.get_root(), word(900));
    assert_eq!(tree.get_index(&word(2)), None);
}

#[test]
fn three_events_make_three_chained_witnesses() {
    let trees = consistent_trees(3);
    let key = Key::new(&word(5), 0);
    let events = vec![event(0), event(1), event(2)];
    let ws = generate_claim_witness(&trees, &key, EligibleTreeKind::ShortTerm, &events).unwrap();
    assert_eq!(ws.len(), 3);
    assert_eq!(ws[0].prev_claim_hash, Bytes32::zero());
    assert_eq!(ws[1].prev_claim_hash, ws[0].new_claim_hash);
    assert_eq!(ws[2].prev_claim_hash, ws[1].new_claim_hash);
    assert_ne!(ws[0].new_claim_hash, ws[1].new_claim_hash);
    // Salts are distinct, being derived from distinct nonces.
    assert_ne!(ws[0].salt, ws[1].salt);
    assert_ne!(ws[1].salt, ws[2].salt);
    assert_ne!(ws[0].salt, ws[2].salt);
    // The recipient is the key's withdrawal address, across the batch.
    for w in &ws {
        assert_eq!(w.recipient, key.withdrawal_address);
        assert_eq!(w.pubkey, derive_pubkey_from_private_key(&key.deposit_private_key));
        assert_eq!(w.deposit_tree_root, trees.deposit_hash_tree.get_root());
        assert_eq!(w.eligible_tree_root, trees.short_term_eligible_tree.get_root());
    }
    // Indices come from the trees' own lookups, the leaf is the tree's
    // entry, and both inclusion proofs verify against the roots passed in.
    for (i, w) in ws.iter().enumerate() {
        assert_eq!(w.deposit_index, i as u32);
        assert_eq!(w.eligible_index, i as u32);
        assert_eq!(w.deposit, event(i as u64).deposit);
        assert_eq!(w.salt, derive_salt_from_private_key_nonce(&key.deposit_private_key, i as u64));
        assert_eq!(w.eligible_leaf, EligibleLeaf { deposit_index: i as u32, amount: 50 + i as u64 });
        assert!(verify_merkle_proof(
            deposit_hash(&w.deposit),
            w.deposit_index,
            &w.deposit_merkle_proof,
            &w.deposit_tree_root,
        ));
        assert!(verify_merkle_proof(
            eligible_leaf_hash(&w.eligible_leaf),
            w.eligible_index,
            &w.eligible_merkle_proof,
            &w.eligible_tree_root,
        ));
    }
}

#[test]
fn batch_of_max_claims_is_accepted_with_equal_length() {
    let trees = consistent_trees(MAX_CLAIMS as u64);
    let key = Key::new(&word(5), 1);
    let events: Vec<Deposited> = (0..MAX_CLAIMS as u64).map(event).collect();
    let ws = generate_claim_witness(&trees, &key, EligibleTreeKind::ShortTerm, &events).unwrap();
    assert_eq!(ws.len(), MAX_CLAIMS);
    for i in 1..ws.len() {
        assert_eq!(ws[i].prev_claim_hash, ws[i - 1].new_claim_hash);
    }
}

#[test]
fn empty_batch_is_a_validation_error() {
    let trees = consistent_trees(2);
    let key = Key::new(&word(5), 0);
    let events: Vec<Deposited> = Vec::new();
    match generate_claim_witness(&trees, &key, EligibleTreeKind::ShortTerm, &events) {
        Err(MiningError::ValidationError(m)) => assert_eq!(m, "No event to generate witness"),
        other => panic!("expected a validation error, got {:?}", other),
    }
}

#[test]
fn oversized_batch_is_a_validation_error_naming_the_bound() {
    let trees = consistent_trees(MAX_CLAIMS as u64 + 1);
    let key = Key::new(&word(5), 0);
    let events: Vec<Deposited> = (0..MAX_CLAIMS as u64 + 1).map(event).collect();
    match generate_claim_witness(&trees, &key, EligibleTreeKind::ShortTerm, &events) {
        Err(MiningError::ValidationError(m)) => assert_eq!(m, "Max 10 events to generate witness"),
        other => panic!("expected a validation error, got {:?}", other),
    }
}

#[test]
fn missing_deposit_hash_is_a_lookup_error() {
    let trees = consistent_trees(2);
    let key = Key::new(&word(5), 0);
    // The third event's deposit hash was never entered into the tree.
    let events = vec![event(0), event(2)];
    match generate_claim_witness(&trees, &key, EligibleTreeKind::ShortTerm, &events) {
        Err(MiningError::LookupError(m)) => {
            assert_eq!(m, "Deposit hash not found in the deposit tree")
        },
        other => panic!("expected a lookup error, got {:?}", other),
    }
}

#[test]
fn ineligible_deposit_is_a_lookup_error() {
    let trees = consistent_trees(2);
    let key = Key::new(&word(5), 0);
    // The long-term window rewards nothing in this snapshot.
    let events = vec![event(0)];
    match generate_claim_witness(&trees, &key, EligibleTreeKind::LongTerm, &events) {
        Err(MiningError::LookupError(m)) => {
            assert_eq!(m, "Deposit is not eligible in this window")
        },
        other => panic!("expected a lookup error, got {:?}", other),
    }
}

#[test]
fn derivations_are_deterministic_and_nonce_bound() {
    let k = word(77);
    assert_eq!(
        derive_salt_from_private_key_nonce(&k, 4),
        derive_salt_from_private_key_nonce(&k, 4)
    );
    assert_ne!(
        derive_salt_from_private_key_nonce(&k, 4),
        derive_salt_from_private_key_nonce(&k, 5)
    );
    // A real digest comes back, not the input words replayed.
    let zero = Bytes32 { w0: 0, w1: 0, w2: 0, w3: 0 };
    let pk = derive_pubkey_from_private_key(&zero);
    assert_ne!(pk, Bytes32 { w0: 1, w1: 0, w2: 0, w3: 0 });
    assert_ne!(pk, zero);
}

#[test]
fn key_derivation_is_deterministic_and_slot_bound() {
    let master = word(9);
    let a = Key::new(&master, 3);
    let b = Key::new(&master, 3);
    let c = Key::new(&master, 4);
    assert_eq!(a, b);
    assert_ne!(a.deposit_private_key, c.deposit_private_key);
    assert_ne!(a.deposit_address, c.deposit_address);
    assert_eq!(a.withdrawal_address, c.withdrawal_address);
    assert_eq!(a.key_number, 3);
    assert_eq!(c.key_number, 4);
}
