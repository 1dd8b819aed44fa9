use mining_core::cooldown::{common_loop_cooldown_secs, mining_cooldown_secs, ServiceSettings};
use mining_core::error::MiningError;
use mining_core::loops::{
    claim_decision, exit_decision, mining_decision, next_key_number, DrainDecision, MiningDecision,
};
use mining_core::mode::RunMode;
use mining_core::receipt::{receipt_poll_decision, PollDecision, MAX_RECEIPT_POLLS};
use mining_core::transfer::{plan_balance_transfer, TransferPlan};
use mining_core::types::{AssetsStatus, Deposit, Deposited};

fn deposit_event(n: u64) -> Deposited {
    Deposited {
        deposit: Deposit {
            pubkey_salt_hash: mining_core::types::Bytes32 { w0: n, w1: 0, w2: 0, w3: 0 },
            token_index: 0,
            amount: 1,
        },
        tx_nonce: n,
        deposit_index: n as u32,
    }
}

fn status(deposits: u64, pending: bool, rejected: bool, not_withdrawn: bool, not_claimed: bool) -> AssetsStatus {
    AssetsStatus {
        senders_deposits: (0..deposits).map(deposit_event).collect(),
        pending_indices: if pending { vec![0] } else { vec![] },
        rejected_indices: if rejected { vec![1] } else { vec![] },
        not_withdrawn_indices: if not_withdrawn { vec![2] } else { vec![] },
        not_claimed_indices: if not_claimed { vec![3] } else { vec![] },
    }
}

#[test]
fn settled_quota_advances_the_key_exactly_once() {
    let s = status(3, false, false, false, true);
    let d = mining_decision(&s, 3);
    assert_eq!(d, MiningDecision::AdvanceKey);
    assert_eq!(next_key_number(7, d), 8);
}

#[test]
fn under_quota_with_nothing_in_flight_deposits_again() {
    let s = status(2, false, false, false, false);
    assert_eq!(mining_decision(&s, 3), MiningDecision::RunTask { new_deposit: true });
    assert_eq!(next_key_number(7, MiningDecision::RunTask { new_deposit: true }), 7);
}

#[test]
fn pending_deposit_blocks_a_new_one() {
    let s = status(2, true, false, false, false);
    assert_eq!(mining_decision(&s, 3), MiningDecision::RunTask { new_deposit: false });
}

#[test]
fn full_quota_with_a_rejected_deposit_keeps_draining() {
    let s = status(3, false, true, false, false);
    assert_eq!(mining_decision(&s, 3), MiningDecision::RunTask { new_deposit: false });
}

#[test]
fn exit_finishes_once_everything_is_withdrawn() {
    assert_eq!(exit_decision(&status(3, false, false, false, true)), DrainDecision::Finish);
    assert_eq!(exit_decision(&status(3, true, false, false, false)), DrainDecision::RunTask);
    assert_eq!(exit_decision(&status(3, false, true, false, false)), DrainDecision::RunTask);
    assert_eq!(exit_decision(&status(3, false, false, true, false)), DrainDecision::RunTask);
}

#[test]
fn claim_finishes_once_nothing_is_left_to_claim() {
    assert_eq!(claim_decision(&status(3, true, true, true, false)), DrainDecision::Finish);
    assert_eq!(claim_decision(&status(3, false, false, false, true)), DrainDecision::RunTask);
}

#[test]
fn cooldowns_respect_the_settings() {
    let settings = ServiceSettings { loop_cooldown_in_sec: 11, mining_max_cooldown_in_sec: 5 };
    assert_eq!(common_loop_cooldown_secs(&settings), 11);
    for _ in 0..200 {
        assert!(mining_cooldown_secs(&settings) < 5);
    }
}

#[test]
fn transfer_moves_exactly_the_excess_over_the_gas_budget() {
    // budget = 2 * 10 * 2 = 40
    assert_eq!(plan_balance_transfer(100, 2, 10), TransferPlan::Transfer { amount: 60 });
    assert_eq!(plan_balance_transfer(41, 2, 10), TransferPlan::Transfer { amount: 1 });
    assert_eq!(plan_balance_transfer(40, 2, 10), TransferPlan::InsufficientBalance);
    assert_eq!(plan_balance_transfer(0, 2, 10), TransferPlan::InsufficientBalance);
}

#[test]
fn receipt_poll_delivers_waits_and_gives_up() {
    assert_eq!(receipt_poll_decision(0, true), PollDecision::Deliver);
    assert_eq!(receipt_poll_decision(0, false), PollDecision::RetryAfterWait);
    assert_eq!(receipt_poll_decision(MAX_RECEIPT_POLLS, false), PollDecision::RetryAfterWait);
    assert_eq!(receipt_poll_decision(MAX_RECEIPT_POLLS + 1, false), PollDecision::GiveUp);
    assert_eq!(receipt_poll_decision(MAX_RECEIPT_POLLS + 1, true), PollDecision::GiveUp);
}

#[test]
fn run_modes_have_their_display_names() {
    assert_eq!(RunMode::Mining.label(), "Mining");
    assert_eq!(RunMode::Claim.label(), "Claim");
    assert_eq!(RunMode::Exit.label(), "Exit");
    assert_eq!(RunMode::Interactive.label(), "Interactive");
}

#[test]
fn errors_carry_their_messages() {
    let e = MiningError::NetworkError("Failed while fetching assets status".to_owned());
    assert_eq!(e.message(), "Failed while fetching assets status");
    let v = MiningError::ValidationError("No event to generate witness".to_owned());
    assert_eq!(v.message(), "No event to generate witness");
    let l = MiningError::LookupError("Deposit hash not found in the deposit tree".to_owned());
    assert_eq!(l.message(), "Deposit hash not found in the deposit tree");
}
