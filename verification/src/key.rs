use vstd::prelude::*;
use crate::digest::{keccak_of_words, keccak256_words};
use crate::types::{Address, Bytes32};

verus! {

/// Domain separators, so the digests of the different derivations can
/// never coincide on equal payloads.
pub const PUBKEY_DOMAIN: u64 = 1;
pub const SALT_DOMAIN: u64 = 2;
pub const KEY_DOMAIN: u64 = 3;

/// A derived identity addressing one mining slot. Immutable once created.
#[derive(Clone, Copy, Debug, PartialEq, Eq, Structural)]
pub struct Key {
    pub deposit_private_key: Bytes32,
    pub withdrawal_address: Address,
    pub deposit_address: Address,
    pub key_number: u64,
}

/// Appends the four limbs of `h` to `words`.
pub(crate) fn push_limbs(words: &mut Vec<u64>, h: &Bytes32)
    ensures
        final(words)@ == old(words)@ + h.limbs(),
{
    words.push(h.w0);
    words.push(h.w1);
    words.push(h.w2);
    words.push(h.w3);
    proof {
        assert(words@ =~= old(words)@ + h.limbs());
    }
}

/// The public key derived from a deposit private key.
pub open spec fn spec_pubkey_of(k: Bytes32) -> Bytes32 {
    keccak_of_words(seq![PUBKEY_DOMAIN] + k.limbs())
}

pub fn derive_pubkey_from_private_key(k: &Bytes32) -> (r: Bytes32)
    ensures
        r == spec_pubkey_of(*k),
{
    let mut words: Vec<u64> = Vec::new();
    words.push(PUBKEY_DOMAIN);
    push_limbs(&mut words, k);
    proof {
        assert(words@ =~= seq![PUBKEY_DOMAIN] + k.limbs());
    }
    keccak256_words(&words)
}

/// The per-event secret salt, bound to the key and the event's on-chain
/// nonce so claims stay unlinkable across events of one key.
pub open spec fn spec_salt_of(k: Bytes32, tx_nonce: u64) -> Bytes32 {
    keccak_of_words(seq![SALT_DOMAIN, tx_nonce] + k.limbs())
}

pub fn derive_salt_from_private_key_nonce(k: &Bytes32, tx_nonce: u64) -> (r: Bytes32)
    ensures
        r == spec_salt_of(*k, tx_nonce),
{
    let mut words: Vec<u64> = Vec::new();
    words.push(SALT_DOMAIN);
    words.push(tx_nonce);
    push_limbs(&mut words, k);
    proof {
        assert(words@ =~= seq![SALT_DOMAIN, tx_nonce] + k.limbs());
    }
    keccak256_words(&words)
}

/// The deposit private key of slot `key_number`, derived from the master
/// withdrawal key.
pub open spec fn spec_deposit_key_of(master: Bytes32, key_number: u64) -> Bytes32 {
    keccak_of_words(seq![KEY_DOMAIN, key_number] + master.limbs())
}

pub fn derive_deposit_key(master: &Bytes32, key_number: u64) -> (r: Bytes32)
    ensures
        r == spec_deposit_key_of(*master, key_number),
{
    let mut words: Vec<u64> = Vec::new();
    words.push(KEY_DOMAIN);
    words.push(key_number);
    push_limbs(&mut words, master);
    proof {
        assert(words@ =~= seq![KEY_DOMAIN, key_number] + master.limbs());
    }
    keccak256_words(&words)
}

/// The account address of a private key: the low 160 bits of its public
/// key.
pub open spec fn spec_address_of(k: Bytes32) -> Address {
    let p = spec_pubkey_of(k);
    Address { a0: p.w1, a1: p.w2, a2: (p.w3 & 0xFFFF_FFFFu64) as u32 }
}

pub fn derive_address_from_private_key(k: &Bytes32) -> (r: Address)
    ensures
        r == spec_address_of(*k),
{
    let p = derive_pubkey_from_private_key(k);
    Address { a0: p.w1, a1: p.w2, a2: (p.w3 & 0xFFFF_FFFFu64) as u32 }
}

/// The identity of slot `key_number` under the given master withdrawal
/// key, all parts derived deterministically.
pub open spec fn spec_key(withdrawal_private_key: Bytes32, key_number: u64) -> Key {
    Key {
        deposit_private_key: spec_deposit_key_of(withdrawal_private_key, key_number),
        withdrawal_address: spec_address_of(withdrawal_private_key),
        deposit_address: spec_address_of(spec_deposit_key_of(withdrawal_private_key, key_number)),
        key_number,
    }
}

impl Key {
    pub fn new(withdrawal_private_key: &Bytes32, key_number: u64) -> (r: Key)
        ensures
            r == spec_key(*withdrawal_private_key, key_number),
    {
        let deposit_private_key = derive_deposit_key(withdrawal_private_key, key_number);
        let withdrawal_address = derive_address_from_private_key(withdrawal_private_key);
        let deposit_address = derive_address_from_private_key(&deposit_private_key);
        Key { deposit_private_key, withdrawal_address, deposit_address, key_number }
    }
}

} // verus!
