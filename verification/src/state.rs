//! The burn-state accounting engine: one persistent record per token that
//! tracks the hard supply cap, the cumulative minted amount, the cumulative
//! burned amount and the burn ceiling, and validates every mint and every
//! transfer under checked arithmetic.
//!
//! Fractions are computed in fixed-point integer arithmetic (a 65% ceiling as
//! `total_supply * 65 / 100`, a 2% burn as `amount * 2 / 100`, both truncated
//! toward zero) so that results are deterministic at every magnitude.

use vstd::prelude::*;

use crate::errors::ErrorCode;

verus! {

/// One token's accounting record.
///
/// `total_supply` and `burn_limit` are fixed at creation; `minted_amount` and
/// `burned_amount` only ever grow. Well-formedness ([`BurnState::wf`]) holds
/// after creation and is preserved by every operation.
#[derive(Clone, Copy, Debug, PartialEq, Eq)]
pub struct BurnState {
    /// Immutable hard cap on units ever mintable.
    pub total_supply: u64,
    /// Cumulative units burned so far.
    pub burned_amount: u64,
    /// Immutable ceiling on cumulative burns: 65% of `total_supply`, truncated.
    pub burn_limit: u64,
    /// Opaque 32-byte identity of the token this record governs.
    pub token_identity: [u8; 32],
    /// Cumulative units minted so far.
    pub minted_amount: u64,
}

/// What the external ledger must perform for one transfer: burn
/// `burn_amount` units from the source (only if `burn_performed`), then move
/// `net_amount` units from source to destination.
#[derive(Clone, Copy, Debug, PartialEq, Eq, Structural)]
pub struct TransferPlan {
    /// Units to burn from the source account.
    pub burn_amount: u64,
    /// Units to move from source to destination.
    pub net_amount: u64,
    /// Whether a burn is to be performed at all.
    pub burn_performed: bool,
}

/// The burn ceiling fixed at creation: 65% of the total supply, truncated
/// toward zero.
pub open spec fn burn_limit_of(total_supply: u64) -> int {
    total_supply * 65 / 100
}

/// The burn portion deducted from one transfer: 2% of the amount, truncated
/// toward zero.
pub open spec fn burn_portion_of(amount: u64) -> int {
    amount * 2 / 100
}

/// How one mint changes the record: a mint that fits under the supply cap
/// adds its amount to the minted counter; one that does not (including one
/// whose checked addition would overflow) leaves the record unchanged.
pub open spec fn mint_step(state: BurnState, amount: u64) -> BurnState {
    if state.minted_amount + amount <= state.total_supply {
        BurnState { minted_amount: (state.minted_amount + amount) as u64, ..state }
    } else {
        state
    }
}

/// How one transfer changes the record: while the burned counter is below
/// the ceiling, the burn portion of the amount is added to it; at or above
/// the ceiling the record is unchanged.
pub open spec fn transfer_step(state: BurnState, amount: u64) -> BurnState {
    if state.burned_amount < state.burn_limit {
        BurnState { burned_amount: (state.burned_amount + burn_portion_of(amount)) as u64, ..state }
    } else {
        state
    }
}

/// What one transfer instructs the ledger to do: below the ceiling, burn the
/// burn portion and move the rest; at or above the ceiling, burn nothing and
/// move the full amount.
pub open spec fn transfer_plan_of(state: BurnState, amount: u64) -> TransferPlan {
    if state.burned_amount < state.burn_limit {
        TransferPlan {
            burn_amount: burn_portion_of(amount) as u64,
            net_amount: (amount - burn_portion_of(amount)) as u64,
            burn_performed: true,
        }
    } else {
        TransferPlan { burn_amount: 0, net_amount: amount, burn_performed: false }
    }
}

/// The burn portion never exceeds the amount it is taken from.
pub proof fn lemma_burn_portion_le(amount: u64)
    ensures
        0 <= burn_portion_of(amount) <= amount,
{
    assert(0 <= amount * 2 / 100 <= amount) by (nonlinear_arith);
}

/// The burn ceiling never exceeds the total supply it is derived from.
pub proof fn lemma_burn_limit_le(total_supply: u64)
    ensures
        0 <= burn_limit_of(total_supply) <= total_supply,
{
    assert(0 <= total_supply * 65 / 100 <= total_supply) by (nonlinear_arith);
}

/// While the burned counter is below the ceiling, adding one burn portion to
/// it cannot leave the unsigned 64-bit range: the ceiling is at most 65% of
/// one 64-bit value and the portion at most 2% of another.
pub proof fn lemma_burn_fits(state: BurnState, amount: u64)
    requires
        state.wf(),
        state.burned_amount < state.burn_limit,
    ensures
        state.burned_amount + burn_portion_of(amount) <= u64::MAX,
        state.burned_amount + burn_portion_of(amount) <= state.burn_limit + burn_portion_of(
            u64::MAX,
        ),
{
    assert(state.total_supply * 65 / 100 + amount * 2 / 100 < 0xffff_ffff_ffff_ffff) by (nonlinear_arith)
        requires
            state.total_supply <= 0xffff_ffff_ffff_ffff,
            amount <= 0xffff_ffff_ffff_ffff,
    ;
    assert(amount * 2 / 100 <= 0xffff_ffff_ffff_ffff * 2 / 100) by (nonlinear_arith)
        requires
            amount <= 0xffff_ffff_ffff_ffff,
    ;
}

impl BurnState {
    /// The record's invariant: the minted counter is within the supply cap,
    /// and the ceiling is the fixed 65% fraction of the supply.
    ///
    /// The ceiling-skip policy checks the burned counter against the ceiling
    /// *before* adding a burn portion, so the last burn may overshoot the
    /// ceiling by less than one portion; the burned counter is therefore
    /// bounded by the ceiling plus the largest portion any single transfer
    /// can carry.
    pub open spec fn wf(self) -> bool {
        &&& self.minted_amount <= self.total_supply
        &&& self.burned_amount <= self.burn_limit + burn_portion_of(u64::MAX)
        &&& self.burn_limit == burn_limit_of(self.total_supply)
        &&& self.burn_limit <= self.total_supply
    }

    /// Create the accounting record for a new token: nothing minted, nothing
    /// burned, and the burn ceiling fixed at 65% of the total supply.
    pub fn create(total_supply: u64, token_identity: [u8; 32]) -> (state: BurnState)
        ensures
            state.total_supply == total_supply,
            state.minted_amount == 0,
            state.burned_amount == 0,
            state.burn_limit == burn_limit_of(total_supply),
            state.token_identity == token_identity,
            state.wf(),
    {
        let wide_limit: u128 = (total_supply as u128) * 65 / 100;
        proof {
            lemma_burn_limit_le(total_supply);
        }
        let burn_limit: u64 = wide_limit as u64;
        BurnState {
            total_supply,
            burned_amount: 0,
            burn_limit,
            token_identity,
            minted_amount: 0,
        }
    }

    /// Validate and record one mint of `amount` units.
    ///
    /// On success the minted counter grows by exactly `amount` and the new
    /// cumulative minted amount is returned. A mint whose checked addition
    /// would overflow fails with `NumericalOverflow`; one whose sum exceeds
    /// the supply cap fails with `ExceedsSupply`; either failure leaves the
    /// record unchanged. This records only: the caller credits the
    /// destination for exactly `amount` units, and only after this succeeds.
    pub fn record_mint(&mut self, amount: u64) -> (r: Result<u64, ErrorCode>)
        requires
            old(self).wf(),
        ensures
            final(self).wf(),
            *final(self) == mint_step(*old(self), amount),
            old(self).minted_amount + amount <= old(self).total_supply
                ==> r == Ok::<u64, ErrorCode>((old(self).minted_amount + amount) as u64),
            old(self).minted_amount + amount > u64::MAX
                ==> r == Err::<u64, ErrorCode>(ErrorCode::NumericalOverflow),
            old(self).minted_amount + amount <= u64::MAX
                && old(self).minted_amount + amount > old(self).total_supply
                ==> r == Err::<u64, ErrorCode>(ErrorCode::ExceedsSupply),
    {
        match self.minted_amount.checked_add(amount) {
            Some(new_minted) => {
                if new_minted <= self.total_supply {
                    self.minted_amount = new_minted;
                    Ok(new_minted)
                } else {
                    Err(ErrorCode::ExceedsSupply)
                }
            },
            None => Err(ErrorCode::NumericalOverflow),
        }
    }

    /// Compute the burn portion for one transfer of `transfer_amount` units
    /// and, while the burned counter is below the ceiling, record it.
    ///
    /// Below the ceiling the burned counter grows by exactly the burn portion
    /// and the plan burns that portion and moves the rest; at or above the
    /// ceiling the record is unchanged and the plan moves the full amount
    /// with no burn. Under the record's invariant neither checked operation
    /// can fail, so the result is always `Ok`. This records only: the caller
    /// performs the plan against the ledger, and only after this succeeds.
    pub fn compute_and_record_burn(&mut self, transfer_amount: u64) -> (r: Result<
        TransferPlan,
        ErrorCode,
    >)
        requires
            old(self).wf(),
        ensures
            final(self).wf(),
            *final(self) == transfer_step(*old(self), transfer_amount),
            r == Ok::<TransferPlan, ErrorCode>(transfer_plan_of(*old(self), transfer_amount)),
    {
        let wide_burn: u128 = (transfer_amount as u128) * 2 / 100;
        proof {
            lemma_burn_portion_le(transfer_amount);
        }
        let burn_amount: u64 = wide_burn as u64;
        let net_amount: u64 = match transfer_amount.checked_sub(burn_amount) {
            Some(n) => n,
            None => {
                return Err(ErrorCode::AmountTooSmall);
            },
        };
        if self.burned_amount < self.burn_limit {
            proof {
                lemma_burn_fits(*self, transfer_amount);
            }
            match self.burned_amount.checked_add(burn_amount) {
                Some(new_burned) => {
                    self.burned_amount = new_burned;
                    Ok(TransferPlan { burn_amount, net_amount, burn_performed: true })
                },
                None => Err(ErrorCode::NumericalOverflow),
            }
        } else {
            Ok(TransferPlan { burn_amount: 0, net_amount: transfer_amount, burn_performed: false })
        }
    }
}

} // verus!
