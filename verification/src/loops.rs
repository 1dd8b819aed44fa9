use vstd::prelude::*;
use crate::types::AssetsStatus;

verus! {

/// What the mining loop does next for the current key: move to the next
/// key, or run the mining task once more (depositing or only draining).
#[derive(Clone, Copy, Debug, PartialEq, Eq, Structural)]
pub enum MiningDecision {
    AdvanceKey,
    RunTask { new_deposit: bool },
}

/// What the exit and claim loops do next for the current key: stop, or run
/// the corresponding task once more.
#[derive(Clone, Copy, Debug, PartialEq, Eq, Structural)]
pub enum DrainDecision {
    Finish,
    RunTask,
}

/// Every planned deposit is made and fully settled: nothing pending,
/// nothing rejected, nothing left to withdraw.
pub open spec fn spec_all_settled(s: AssetsStatus, mining_times: u64) -> bool {
    &&& s.senders_deposits@.len() >= mining_times
    &&& s.pending_indices@.len() == 0
    &&& s.rejected_indices@.len() == 0
    &&& s.not_withdrawn_indices@.len() == 0
}

/// Deposit only while under quota and with nothing already in flight.
pub open spec fn spec_should_deposit(s: AssetsStatus, mining_times: u64) -> bool {
    &&& s.senders_deposits@.len() < mining_times
    &&& s.pending_indices@.len() == 0
}

/// The mining loop's decision on a fresh snapshot.
pub open spec fn spec_mining_decision(s: AssetsStatus, mining_times: u64) -> MiningDecision {
    if spec_all_settled(s, mining_times) {
        MiningDecision::AdvanceKey
    } else {
        MiningDecision::RunTask { new_deposit: spec_should_deposit(s, mining_times) }
    }
}

pub fn mining_decision(status: &AssetsStatus, mining_times: u64) -> (d: MiningDecision)
    ensures
        d == spec_mining_decision(*status, mining_times),
{
    let deposits_made = status.senders_deposits.len() as u64;
    if deposits_made >= mining_times && status.pending_indices.len() == 0
        && status.rejected_indices.len() == 0 && status.not_withdrawn_indices.len() == 0 {
        MiningDecision::AdvanceKey
    } else {
        let new_deposit = deposits_made < mining_times && status.pending_indices.len() == 0;
        MiningDecision::RunTask { new_deposit }
    }
}

/// The key number the mining loop holds after acting on a decision: one
/// further slot on advancement, the same slot otherwise.
pub open spec fn spec_next_key_number(key_number: u64, d: MiningDecision) -> u64 {
    if d == MiningDecision::AdvanceKey {
        (key_number + 1) as u64
    } else {
        key_number
    }
}

pub fn next_key_number(key_number: u64, d: MiningDecision) -> (r: u64)
    requires
        key_number < u64::MAX,
    ensures
        r == spec_next_key_number(key_number, d),
{
    if d == MiningDecision::AdvanceKey {
        key_number + 1
    } else {
        key_number
    }
}

/// Once a snapshot shows every planned deposit made and fully settled, the
/// mining loop advances the key number exactly once and runs no further
/// task for that key.
pub proof fn lemma_mining_advances_key(s: AssetsStatus, mining_times: u64, key_number: u64)
    requires
        s.senders_deposits@.len() == mining_times,
        s.pending_indices@.len() == 0,
        s.rejected_indices@.len() == 0,
        s.not_withdrawn_indices@.len() == 0,
        key_number < u64::MAX,
    ensures
        spec_mining_decision(s, mining_times) == MiningDecision::AdvanceKey,
        !(spec_mining_decision(s, mining_times) matches MiningDecision::RunTask { .. }),
        spec_next_key_number(key_number, spec_mining_decision(s, mining_times)) == key_number + 1,
{
}

/// Nothing pending, nothing rejected, nothing left to withdraw: the exit
/// loop is done with this key.
pub open spec fn spec_exit_finished(s: AssetsStatus) -> bool {
    &&& s.pending_indices@.len() == 0
    &&& s.rejected_indices@.len() == 0
    &&& s.not_withdrawn_indices@.len() == 0
}

/// The exit loop's decision on a fresh snapshot.
pub open spec fn spec_exit_decision(s: AssetsStatus) -> DrainDecision {
    if spec_exit_finished(s) {
        DrainDecision::Finish
    } else {
        DrainDecision::RunTask
    }
}

pub fn exit_decision(status: &AssetsStatus) -> (d: DrainDecision)
    ensures
        d == spec_exit_decision(*status),
{
    if status.pending_indices.len() == 0 && status.rejected_indices.len() == 0
        && status.not_withdrawn_indices.len() == 0 {
        DrainDecision::Finish
    } else {
        DrainDecision::RunTask
    }
}

/// Once a key's pending, rejected and not-withdrawn sets are all empty,
/// the exit loop finishes with no further task invocation.
pub proof fn lemma_exit_terminates(s: AssetsStatus)
    requires
        s.pending_indices@.len() == 0,
        s.rejected_indices@.len() == 0,
        s.not_withdrawn_indices@.len() == 0,
    ensures
        spec_exit_decision(s) == DrainDecision::Finish,
        spec_exit_decision(s) != DrainDecision::RunTask,
{
}

/// Everything eligible is claimed: the claim loop is done with this key.
pub open spec fn spec_claim_finished(s: AssetsStatus) -> bool {
    s.not_claimed_indices@.len() == 0
}

/// The claim loop's decision on a fresh snapshot.
pub open spec fn spec_claim_decision(s: AssetsStatus) -> DrainDecision {
    if spec_claim_finished(s) {
        DrainDecision::Finish
    } else {
        DrainDecision::RunTask
    }
}

pub fn claim_decision(status: &AssetsStatus) -> (d: DrainDecision)
    ensures
        d == spec_claim_decision(*status),
{
    if status.not_claimed_indices.len() == 0 {
        DrainDecision::Finish
    } else {
        DrainDecision::RunTask
    }
}

/// Once a key's not-claimed set is empty, the claim loop finishes with no
/// further task invocation.
pub proof fn lemma_claim_terminates(s: AssetsStatus)
    requires
        s.not_claimed_indices@.len() == 0,
    ensures
        spec_claim_decision(s) == DrainDecision::Finish,
        spec_claim_decision(s) != DrainDecision::RunTask,
{
}

} // verus!
