use vstd::prelude::*;

verus! {

/// How many polls a transaction confirmation waits through before the run
/// gives the transaction up as not mined.
pub const MAX_RECEIPT_POLLS: u64 = 20;

/// What the confirmation poll does next: deliver the receipt it holds,
/// give the transaction up, or wait and ask the chain once more.
#[derive(Clone, Copy, Debug, PartialEq, Eq, Structural)]
pub enum PollDecision {
    Deliver,
    GiveUp,
    RetryAfterWait,
}

/// The confirmation poll's decision: past the poll bound the transaction
/// is given up, whatever came back; within it a receipt in hand is
/// delivered, and an absent one asked for again after a wait.
pub open spec fn spec_poll_decision(polls_done: u64, has_receipt: bool) -> PollDecision {
    if polls_done > MAX_RECEIPT_POLLS {
        PollDecision::GiveUp
    } else if has_receipt {
        PollDecision::Deliver
    } else {
        PollDecision::RetryAfterWait
    }
}

pub fn receipt_poll_decision(polls_done: u64, has_receipt: bool) -> (d: PollDecision)
    ensures
        d == spec_poll_decision(polls_done, has_receipt),
{
    if polls_done > MAX_RECEIPT_POLLS {
        PollDecision::GiveUp
    } else if has_receipt {
        PollDecision::Deliver
    } else {
        PollDecision::RetryAfterWait
    }
}

/// The poll loop cannot run unboundedly: another wait is only ever asked
/// for within the poll bound, so a loop that counts its polls stops after
/// at most `MAX_RECEIPT_POLLS + 2` decisions.
pub proof fn lemma_poll_bounded(polls_done: u64, has_receipt: bool)
    requires
        spec_poll_decision(polls_done, has_receipt) == PollDecision::RetryAfterWait,
    ensures
        polls_done <= MAX_RECEIPT_POLLS,
{
}

} // verus!
