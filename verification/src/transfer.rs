use vstd::prelude::*;

verus! {

/// What a balance sweep should do: leave the funds alone when the balance
/// would not outlast the gas, or transfer everything above the budget.
#[derive(Clone, Copy, Debug, PartialEq, Eq, Structural)]
pub enum TransferPlan {
    InsufficientBalance,
    Transfer { amount: u128 },
}

/// The gas kept back before sweeping a balance: the estimated cost, twice,
/// to leave room for gas bumps.
pub open spec fn spec_gas_budget(estimated_gas: u128, max_fee_per_gas: u128) -> int {
    estimated_gas * max_fee_per_gas * 2
}

/// Decides a balance sweep from a deposit address: nothing moves unless
/// the balance strictly exceeds the doubled gas budget, and then exactly
/// the excess moves.
pub fn plan_balance_transfer(balance: u128, estimated_gas: u128, max_fee_per_gas: u128) -> (r:
    TransferPlan)
    requires
        spec_gas_budget(estimated_gas, max_fee_per_gas) <= u128::MAX,
    ensures
        balance <= spec_gas_budget(estimated_gas, max_fee_per_gas) ==> r
            == TransferPlan::InsufficientBalance,
        balance > spec_gas_budget(estimated_gas, max_fee_per_gas) ==> r
            == (TransferPlan::Transfer {
            amount: (balance - spec_gas_budget(estimated_gas, max_fee_per_gas)) as u128,
        }),
{
    proof {
        assert(estimated_gas * max_fee_per_gas <= estimated_gas * max_fee_per_gas * 2) by (nonlinear_arith)
            requires
                estimated_gas >= 0,
                max_fee_per_gas >= 0,
        ;
    }
    let per_gas_cost = estimated_gas * max_fee_per_gas;
    let gas_budget = per_gas_cost * 2;
    if balance <= gas_budget {
        TransferPlan::InsufficientBalance
    } else {
        TransferPlan::Transfer { amount: balance - gas_budget }
    }
}

} // verus!
