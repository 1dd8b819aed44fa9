use vstd::prelude::*;
use vstd::bytes::{spec_u64_to_le_bytes, u64_to_le_bytes};
use crate::types::Bytes32;
use tiny_keccak::Hasher;

verus! {

/// The little-endian bytes of the words, in order.
pub open spec fn spec_words_bytes(ws: Seq<u64>) -> Seq<u8>
    decreases ws.len(),
{
    if ws.len() == 0 {
        Seq::empty()
    } else {
        spec_u64_to_le_bytes(ws[0]) + spec_words_bytes(ws.drop_first())
    }
}

proof fn lemma_words_bytes_push(ws: Seq<u64>, x: u64)
    ensures
        spec_words_bytes(ws.push(x)) == spec_words_bytes(ws) + spec_u64_to_le_bytes(x),
    decreases ws.len(),
{
    if ws.len() == 0 {
        assert(ws.push(x).drop_first() =~= Seq::<u64>::empty());
        assert(spec_words_bytes(Seq::<u64>::empty()) =~= Seq::<u8>::empty());
        assert(ws =~= Seq::<u64>::empty());
        assert(ws.push(x)[0] == x);
        assert(spec_words_bytes(ws.push(x)) =~= spec_words_bytes(ws) + spec_u64_to_le_bytes(x));
    } else {
        lemma_words_bytes_push(ws.drop_first(), x);
        assert(ws.push(x).drop_first() =~= ws.drop_first().push(x));
        assert(ws.push(x)[0] == ws[0]);
        assert(spec_words_bytes(ws.push(x)) == spec_u64_to_le_bytes(ws[0]) + (spec_words_bytes(
            ws.drop_first(),
        ) + spec_u64_to_le_bytes(x)));
        assert(spec_words_bytes(ws.push(x)) =~= spec_words_bytes(ws) + spec_u64_to_le_bytes(x));
    }
}

/// The words' little-endian bytes, computed.
fn words_to_bytes(words: &Vec<u64>) -> (r: Vec<u8>)
    ensures
        r@ == spec_words_bytes(words@),
{
    let mut bytes: Vec<u8> = Vec::new();
    let mut k: usize = 0;
    proof {
        assert(words@.take(0) =~= Seq::<u64>::empty());
    }
    while k < words.len()
        invariant
            0 <= k <= words@.len(),
            bytes@ == spec_words_bytes(words@.take(k as int)),
        decreases words@.len() - k,
    {
        let mut piece = u64_to_le_bytes(words[k]);
        proof {
            lemma_words_bytes_push(words@.take(k as int), words@[k as int]);
            assert(words@.take(k as int).push(words@[k as int]) =~= words@.take(k as int + 1));
        }
        bytes.append(&mut piece);
        k += 1;
    }
    proof {
        assert(words@.take(words@.len() as int) =~= words@);
    }
    bytes
}

/// What keccak-256 returns on a byte sequence. A fixed function of the
/// input alone, the same in every process and on every machine.
pub uninterp spec fn keccak_of(bytes: Seq<u8>) -> Bytes32;

/// The word-level digest this library keys everything by: keccak-256 over
/// the words' little-endian bytes, in order.
pub open spec fn keccak_of_words(words: Seq<u64>) -> Bytes32 {
    keccak_of(spec_words_bytes(words))
}

/// Relies on tiny_keccak's Keccak::v256 with Hasher::update and
/// Hasher::finalize: keccak-256, a digest of the input bytes alone, 32
/// bytes out.
#[verifier::external_body]
fn keccak256(bytes: &Vec<u8>) -> (r: Bytes32)
    ensures
        r == keccak_of(bytes@),
{
    let mut state = tiny_keccak::Keccak::v256();
    state.update(bytes.as_slice());
    let mut out = [0u8; 32];
    state.finalize(&mut out);
    Bytes32 {
        w0: u64::from_be_bytes(out[0..8].try_into().unwrap()),
        w1: u64::from_be_bytes(out[8..16].try_into().unwrap()),
        w2: u64::from_be_bytes(out[16..24].try_into().unwrap()),
        w3: u64::from_be_bytes(out[24..32].try_into().unwrap()),
    }
}

pub(crate) fn keccak256_words(words: &Vec<u64>) -> (r: Bytes32)
    ensures
        r == keccak_of_words(words@),
{
    let bytes = words_to_bytes(words);
    keccak256(&bytes)
}

} // verus!
