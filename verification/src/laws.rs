//! The general laws of the accounting engine, stated over its specification
//! model ([`crate::state::mint_step`], [`crate::state::transfer_step`],
//! [`crate::state::transfer_plan_of`]) and proved for every input and every
//! sequence of operations.

use vstd::prelude::*;

use crate::state::BurnState;
use crate::state::TransferPlan;
use crate::state::burn_portion_of;
use crate::state::lemma_burn_fits;
use crate::state::lemma_burn_portion_le;
use crate::state::mint_step;
use crate::state::transfer_plan_of;
use crate::state::transfer_step;

verus! {

/// Sum of a sequence of mint amounts.
pub open spec fn sum_of(amounts: Seq<u64>) -> int
    decreases amounts.len(),
{
    if amounts.len() == 0 {
        0
    } else {
        sum_of(amounts.drop_last()) + amounts.last()
    }
}

/// The record after a sequence of mints, each applied by `mint_step`.
pub open spec fn state_after_mints(state: BurnState, amounts: Seq<u64>) -> BurnState
    decreases amounts.len(),
{
    if amounts.len() == 0 {
        state
    } else {
        mint_step(state_after_mints(state, amounts.drop_last()), amounts.last())
    }
}

/// Every mint of the sequence fits under the supply cap at the point where
/// it is applied.
pub open spec fn mints_all_fit(state: BurnState, amounts: Seq<u64>) -> bool
    decreases amounts.len(),
{
    if amounts.len() == 0 {
        true
    } else {
        mints_all_fit(state, amounts.drop_last()) && state_after_mints(
            state,
            amounts.drop_last(),
        ).minted_amount + amounts.last() <= state_after_mints(
            state,
            amounts.drop_last(),
        ).total_supply
    }
}

/// Mint accounting: for any sequence of mints each of which fits under the
/// supply cap, the minted counter ends at exactly its starting value plus
/// the sum of the amounts, the invariant (in particular `minted_amount <=
/// total_supply`) holds at every point, and the supply cap, burn ceiling,
/// burned counter and token identity are untouched. A mint that does not
/// fit leaves the record unchanged (by definition of `mint_step`), so the
/// first mint past the cap changes nothing.
pub proof fn lemma_mint_accounting(state: BurnState, amounts: Seq<u64>)
    requires
        state.wf(),
        mints_all_fit(state, amounts),
    ensures
        state_after_mints(state, amounts).minted_amount == state.minted_amount + sum_of(amounts),
        state_after_mints(state, amounts).wf(),
        state_after_mints(state, amounts).total_supply == state.total_supply,
        state_after_mints(state, amounts).burned_amount == state.burned_amount,
        state_after_mints(state, amounts).burn_limit == state.burn_limit,
        state_after_mints(state, amounts).token_identity == state.token_identity,
    decreases amounts.len(),
{
    if amounts.len() > 0 {
        lemma_mint_accounting(state, amounts.drop_last());
    }
}

/// Burn accounting below the ceiling: while the burned counter is below the
/// ceiling, one transfer burns exactly 2% of the amount (truncated toward
/// zero), moves exactly the amount less that portion, and advances the
/// burned counter by exactly the portion; the other fields are untouched.
pub proof fn lemma_burn_below_ceiling(state: BurnState, amount: u64)
    requires
        state.wf(),
        state.burned_amount < state.burn_limit,
    ensures
        transfer_plan_of(state, amount).burn_performed,
        transfer_plan_of(state, amount).burn_amount == burn_portion_of(amount),
        transfer_plan_of(state, amount).net_amount == amount - burn_portion_of(amount),
        transfer_step(state, amount).burned_amount == state.burned_amount + burn_portion_of(
            amount,
        ),
        transfer_step(state, amount).wf(),
        transfer_step(state, amount).total_supply == state.total_supply,
        transfer_step(state, amount).burn_limit == state.burn_limit,
        transfer_step(state, amount).minted_amount == state.minted_amount,
        transfer_step(state, amount).token_identity == state.token_identity,
{
    lemma_burn_portion_le(amount);
    lemma_burn_fits(state, amount);
}

/// The record after a sequence of transfers, each applied by
/// `transfer_step`.
pub open spec fn state_after_transfers(state: BurnState, amounts: Seq<u64>) -> BurnState
    decreases amounts.len(),
{
    if amounts.len() == 0 {
        state
    } else {
        transfer_step(state_after_transfers(state, amounts.drop_last()), amounts.last())
    }
}

/// The ceiling is absorbing: once the burned counter has reached the burn
/// ceiling, any sequence of further transfers leaves the record exactly as
/// it is, and every one of them, whatever its amount, instructs the ledger
/// to move the full amount with zero burn.
pub proof fn lemma_ceiling_is_final(state: BurnState, amounts: Seq<u64>)
    requires
        state.burned_amount >= state.burn_limit,
    ensures
        state_after_transfers(state, amounts) == state,
        forall|amount: u64|
            transfer_plan_of(state, amount) == (TransferPlan {
                burn_amount: 0,
                net_amount: amount,
                burn_performed: false,
            }),
    decreases amounts.len(),
{
    if amounts.len() > 0 {
        lemma_ceiling_is_final(state, amounts.drop_last());
    }
}

/// Monotonicity: no operation ever decreases a counter, and no operation
/// ever changes the supply cap, the burn ceiling or the token identity.
pub proof fn lemma_counters_monotone(state: BurnState, amount: u64)
    requires
        state.wf(),
    ensures
        mint_step(state, amount).minted_amount >= state.minted_amount,
        mint_step(state, amount).burned_amount == state.burned_amount,
        mint_step(state, amount).total_supply == state.total_supply,
        mint_step(state, amount).burn_limit == state.burn_limit,
        mint_step(state, amount).token_identity == state.token_identity,
        transfer_step(state, amount).burned_amount >= state.burned_amount,
        transfer_step(state, amount).minted_amount == state.minted_amount,
        transfer_step(state, amount).total_supply == state.total_supply,
        transfer_step(state, amount).burn_limit == state.burn_limit,
        transfer_step(state, amount).token_identity == state.token_identity,
{
    lemma_burn_portion_le(amount);
    if state.burned_amount < state.burn_limit {
        lemma_burn_fits(state, amount);
    }
}

} // verus!
