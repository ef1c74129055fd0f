//! Funding the reward of a pool.

use crate::pool::{ErrorCode, Pool};
use crate::stake::least;
use crate::transfer::{TokenAccount, TokenTransfer, TransferError};
use vstd::prelude::*;

verus! {

/// What a funding works on: the pool, the wallet that pays, and the time.
#[derive(Clone, Copy, Debug, PartialEq, Eq)]
pub struct AddReward {
    pub pool: Pool,
    pub source_wallet: TokenAccount,
    pub now: i64,
}

impl AddReward {
    /// How much of the reward budget is still unfunded.
    pub open spec fn missing_reward(&self) -> int {
        self.pool.reward_amount - self.pool.deposited_reward_amount
    }

    /// The amount that a funding of `amount` moves: no more than is asked for,
    /// than is missing, or than the wallet holds.
    pub open spec fn clamped(&self, amount: u64) -> int {
        least(least(amount as int, self.missing_reward()), self.source_wallet.amount as int)
    }

    /// The transfer that a funding of `amount` asks for, or why there is none.
    pub open spec fn transfer(&self, amount: u64) -> Result<TokenTransfer, ErrorCode> {
        if self.missing_reward() < 0 {
            Err(ErrorCode::IntegerOverflow)
        } else if self.clamped(amount) == 0 {
            Err(ErrorCode::NotEnoughRewards)
        } else if self.now > self.pool.lockup_end() {
            Err(ErrorCode::PoolIsExpired)
        } else {
            Ok(
                TokenTransfer {
                    amount: self.clamped(amount) as u64,
                    from: self.source_wallet.key,
                    to: self.pool.stake_vault,
                    amount_before: self.source_wallet.amount,
                    signers: None,
                },
            )
        }
    }

    /// The state after a funding whose transfer `moved` has passed the guard.
    pub open spec fn committed(&self, moved: TokenTransfer, report: Result<u64, TransferError>)
        -> AddReward {
        AddReward {
            pool: Pool {
                deposited_reward_amount: (self.pool.deposited_reward_amount + moved.amount) as u64,
                ..self.pool
            },
            source_wallet: TokenAccount {
                key: self.source_wallet.key,
                amount: moved.balance_after(report),
            },
            ..*self
        }
    }

    /// What a funding of `amount` comes to, given the report of its transfer:
    /// the next state, or the error that leaves the state as it is.
    pub open spec fn outcome(&self, amount: u64, report: Result<u64, TransferError>) -> Result<
        AddReward,
        ErrorCode,
    > {
        match self.transfer(amount) {
            Err(e) => Err(e),
            Ok(moved) => match moved.verdict(report) {
                Err(e) => Err(e),
                Ok(_) => Ok(self.committed(moved, report)),
            },
        }
    }
}

/// Says which transfer a funding of `amount` needs. It fails, in this order,
/// with `IntegerOverflow` where more reward is deposited than budgeted, with
/// `NotEnoughRewards` where nothing can be moved, and with `PoolIsExpired`
/// once the lockup has passed.
pub fn reward_transfer(ctx: &AddReward, amount: u64) -> (asked: Result<TokenTransfer, ErrorCode>)
    ensures
        asked == ctx.transfer(amount),
{
    let missing: u64 = match ctx.pool.reward_amount.checked_sub(
        ctx.pool.deposited_reward_amount,
    ) {
        Some(missing) => missing,
        None => {
            return Err(ErrorCode::IntegerOverflow);
        },
    };
    let wanted: u64 = if amount <= missing {
        amount
    } else {
        missing
    };
    let transfer_amount: u64 = if wanted <= ctx.source_wallet.amount {
        wanted
    } else {
        ctx.source_wallet.amount
    };
    if transfer_amount == 0 {
        return Err(ErrorCode::NotEnoughRewards);
    }
    if ctx.pool.is_expired(ctx.now) {
        return Err(ErrorCode::PoolIsExpired);
    }
    Ok(
        TokenTransfer {
            amount: transfer_amount,
            from: ctx.source_wallet.key,
            to: ctx.pool.stake_vault,
            amount_before: ctx.source_wallet.amount,
            signers: None,
        },
    )
}

/// Funds up to `amount` of the pool's reward. `report` says what the transfer
/// named by `reward_transfer` did: the wallet's balance as read again, or why
/// the transfer failed. On success the reward deposited grows by the amount
/// moved. The deposit is tested against the budget once more before it is
/// written; as the amount was clamped, `PoolRewardsAreFull` never comes out.
/// On any error nothing changes.
pub fn add_reward(ctx: &mut AddReward, amount: u64, report: Result<u64, TransferError>) -> (done:
    Result<(), ErrorCode>)
    ensures
        match old(ctx).outcome(amount, report) {
            Ok(next) => done is Ok && *final(ctx) == next,
            Err(e) => done == Err::<(), ErrorCode>(e) && *final(ctx) == *old(ctx),
        },
        old(ctx).pool.wf() ==> final(ctx).pool.wf(),
        done != Err::<(), ErrorCode>(ErrorCode::PoolRewardsAreFull),
{
    let moved = match reward_transfer(ctx, amount) {
        Ok(moved) => moved,
        Err(e) => {
            return Err(e);
        },
    };
    match moved.make(report) {
        Ok(_) => {},
        Err(e) => {
            return Err(e);
        },
    }
    let deposited: u64 = match ctx.pool.deposited_reward_amount.checked_add(moved.amount) {
        Some(deposited) => deposited,
        None => {
            return Err(ErrorCode::PoolRewardsAreFull);
        },
    };
    if deposited > ctx.pool.reward_amount {
        return Err(ErrorCode::PoolRewardsAreFull);
    }
    ctx.pool.deposited_reward_amount = deposited;
    ctx.source_wallet.amount = moved.settled_balance(report);
    Ok(())
}

/// A funding whose transfer moved another amount than the one asked for
/// fails with `InvalidAmountTransferred`.
pub proof fn lemma_funding_needs_exact_transfer(ctx: AddReward, amount: u64, amount_after: u64)
    requires
        ctx.transfer(amount) is Ok,
        !ctx.transfer(amount)->Ok_0.moved_exactly(amount_after),
    ensures
        ctx.outcome(amount, Ok(amount_after)) == Err::<AddReward, ErrorCode>(
            ErrorCode::InvalidAmountTransferred,
        ),
{
}

/// A funding keeps the reward within its budget: a pool that satisfied its
/// invariant before a funding satisfies it afterwards, and the funding never
/// fails on the budget once its transfer has passed the guard.
pub proof fn lemma_funding_keeps_pool_valid(
    ctx: AddReward,
    amount: u64,
    report: Result<u64, TransferError>,
)
    requires
        ctx.pool.wf(),
    ensures
        ctx.outcome(amount, report) is Ok ==> ctx.outcome(amount, report)->Ok_0.pool.wf(),
        ctx.outcome(amount, report) != Err::<AddReward, ErrorCode>(ErrorCode::PoolRewardsAreFull),
{
}

} // verus!
