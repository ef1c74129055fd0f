//! The payout of an expired pool: the principal and a proportional share of
//! the reward.

use crate::fixed_point::{checked_add, checked_as_u64, checked_div, checked_mul, from_num, one};
use crate::pool::{ErrorCode, Pool, Pubkey};
use crate::ticket::Ticket;
use crate::transfer::{PoolSeeds, TokenTransfer, TransferError};
use vstd::prelude::*;

verus! {

/// The staker's share of the pool as a fixed-point bit pattern: the stake
/// divided by all the stake acquired, rounded down to a multiple of 2^-64.
pub open spec fn share_bits(staked: u64, acquired: u64) -> int {
    (staked * one()) / (acquired as int)
}

/// The part of the reward that falls to the staker: the share times the
/// reward, rounded down to an integer.
pub open spec fn reward_share(staked: u64, acquired: u64, reward: u64) -> int {
    (share_bits(staked, acquired) * reward) / one()
}

/// What a staker is owed after expiry: the stake and the staker's part of the
/// reward.
pub open spec fn payout(staked: u64, acquired: u64, reward: u64) -> int {
    staked + reward_share(staked, acquired, reward)
}

proof fn lemma_share_fits(staked: u64, acquired: u64)
    requires
        acquired > 0,
    ensures
        0 <= share_bits(staked, acquired) <= staked * one(),
        (staked * one() * one()) / (acquired * one()) == share_bits(staked, acquired),
{
    let n = staked * one();
    assert(0 <= n / (acquired as int) <= n) by {
        vstd::arithmetic::div_mod::lemma_div_nonincreasing(n, acquired as int);
        vstd::arithmetic::div_mod::lemma_div_pos_is_pos(n, acquired as int);
    }
    assert((n * one()) / (acquired * one()) == n / (acquired as int)) by {
        vstd::arithmetic::div_mod::lemma_div_multiples_vanish_quotient(
            one(),
            n,
            acquired as int,
        );
        assert(one() * n == n * one()) by (nonlinear_arith);
        assert(one() * (acquired as int) == acquired * one()) by (nonlinear_arith);
    }
}

proof fn lemma_reward_share_bits(share: int, reward: u64)
    requires
        share >= 0,
    ensures
        (share * (reward * one())) / one() == share * reward,
        share * reward >= 0,
{
    assert(share * (reward * one()) == (share * reward) * one()) by (nonlinear_arith);
    assert(share * reward >= 0) by (nonlinear_arith)
        requires
            share >= 0,
            reward >= 0,
    ;
    vstd::arithmetic::div_mod::lemma_div_by_multiple(share * reward, one());
}

/// Computes the payout of a stake in fixed-point arithmetic: the share is the
/// stake divided by the stake acquired, the reward's part is the share times
/// the reward, and the sum with the stake is rounded down to an integer.
/// Fails with `IntegerOverflow` exactly when the payout does not fit a `u64`.
pub fn reward_payout(staked: u64, acquired: u64, reward: u64) -> (paid: Result<u64, ErrorCode>)
    requires
        acquired > 0,
    ensures
        payout(staked, acquired, reward) <= u64::MAX ==> paid == Ok::<u64, ErrorCode>(
            payout(staked, acquired, reward) as u64,
        ),
        payout(staked, acquired, reward) > u64::MAX ==> paid == Err::<u64, ErrorCode>(
            ErrorCode::IntegerOverflow,
        ),
{
    let staked_amount = from_num(staked);
    let stake_acquired_amount = from_num(acquired);
    let reward_amount = from_num(reward);
    proof {
        lemma_share_fits(staked, acquired);
        lemma_reward_share_bits(share_bits(staked, acquired), reward);
    }
    let share = match checked_div(staked_amount, stake_acquired_amount) {
        Some(share) => share,
        None => {
            return Err(ErrorCode::IntegerOverflow);
        },
    };
    let part = match checked_mul(share, reward_amount) {
        Some(part) => part,
        None => {
            return Err(ErrorCode::IntegerOverflow);
        },
    };
    let total = match checked_add(staked_amount, part) {
        Some(total) => total,
        None => {
            return Err(ErrorCode::IntegerOverflow);
        },
    };
    proof {
        vstd::arithmetic::div_mod::lemma_hoist_over_denominator(
            part as int,
            staked as int,
            one() as nat,
        );
    }
    match checked_as_u64(total) {
        Some(amount) => Ok(amount),
        None => Err(ErrorCode::IntegerOverflow),
    }
}

/// What a claim works on: the pool and its identity, the staker and the
/// ticket, the balance of the pool's vault, the wallet that receives, and the time.
#[derive(Clone, Copy, Debug, PartialEq, Eq)]
pub struct ClaimReward {
    pub pool: Pool,
    pub pool_key: Pubkey,
    pub staker: Pubkey,
    pub ticket: Option<Ticket>,
    /// The balance of the pool's vault.
    pub stake_vault_amount: u64,
    pub target_wallet: Pubkey,
    pub now: i64,
}

impl ClaimReward {
    /// What the ticket's holder is owed.
    pub open spec fn owed(&self) -> int {
        payout(
            self.ticket->Some_0.staked_amount,
            self.pool.stake_acquired_amount,
            self.pool.reward_amount,
        )
    }

    /// The transfer that a claim asks for, or why there is none. The pool
    /// itself authorises the payment.
    pub open spec fn transfer(&self) -> Result<TokenTransfer, ErrorCode> {
        if self.ticket is None || !self.ticket->Some_0.belongs_to(self.pool_key, self.staker) {
            Err(ErrorCode::InvalidAuthority)
        } else if self.now <= self.pool.lockup_end() {
            Err(ErrorCode::PoolIsNotExpired)
        } else if self.owed() > u64::MAX {
            Err(ErrorCode::IntegerOverflow)
        } else {
            Ok(
                TokenTransfer {
                    amount: self.owed() as u64,
                    from: self.pool.stake_vault,
                    to: self.target_wallet,
                    amount_before: self.stake_vault_amount,
                    signers: Some(
                        PoolSeeds {
                            pool: self.pool_key,
                            admin: self.pool.admin,
                            bump: self.pool.bump,
                        },
                    ),
                },
            )
        }
    }

    /// The state after a claim whose transfer `moved` has passed the guard: the
    /// ticket is closed, and the pool keeps its counters, so that the stake
    /// acquired stays the measure of every other staker's share.
    pub open spec fn committed(&self, moved: TokenTransfer, report: Result<u64, TransferError>)
        -> ClaimReward {
        ClaimReward {
            ticket: None,
            stake_vault_amount: moved.balance_after(report),
            ..*self
        }
    }

    /// What a claim comes to, given the report of its transfer: the next
    /// state, or the error that leaves the state as it is.
    pub open spec fn outcome(&self, report: Result<u64, TransferError>) -> Result<
        ClaimReward,
        ErrorCode,
    > {
        match self.transfer() {
            Err(e) => Err(e),
            Ok(moved) => match moved.verdict(report) {
                Err(e) => Err(e),
                Ok(_) => Ok(self.committed(moved, report)),
            },
        }
    }
}

/// Says which transfer a claim needs. It fails, in this order, with
/// `InvalidAuthority` for a missing ticket or one of another staker or pool,
/// with `PoolIsNotExpired` until the lockup has passed, and with
/// `IntegerOverflow` where the payout does not fit a `u64`. A pool that has
/// acquired no stake has no ticket to pay out.
pub fn claim_transfer(ctx: &ClaimReward) -> (asked: Result<TokenTransfer, ErrorCode>)
    requires
        ctx.pool.stake_acquired_amount > 0,
    ensures
        asked == ctx.transfer(),
{
    let ticket = match ctx.ticket {
        Some(ticket) => ticket,
        None => {
            return Err(ErrorCode::InvalidAuthority);
        },
    };
    if !ticket.is_owned_by(ctx.pool_key, ctx.staker) {
        return Err(ErrorCode::InvalidAuthority);
    }
    if !ctx.pool.is_expired(ctx.now) {
        return Err(ErrorCode::PoolIsNotExpired);
    }
    let transfer_amount: u64 = match reward_payout(
        ticket.staked_amount,
        ctx.pool.stake_acquired_amount,
        ctx.pool.reward_amount,
    ) {
        Ok(transfer_amount) => transfer_amount,
        Err(e) => {
            return Err(e);
        },
    };
    Ok(
        TokenTransfer {
            amount: transfer_amount,
            from: ctx.pool.stake_vault,
            to: ctx.target_wallet,
            amount_before: ctx.stake_vault_amount,
            signers: Some(
                PoolSeeds { pool: ctx.pool_key, admin: ctx.pool.admin, bump: ctx.pool.bump },
            ),
        },
    )
}

/// Pays the staker out, once and in full. `report` says what the transfer
/// named by `claim_transfer` did: the vault's balance as read again, or why
/// the transfer failed. On success the ticket is closed and the pool is left
/// as it is. On any error nothing changes.
pub fn claim_reward(ctx: &mut ClaimReward, report: Result<u64, TransferError>) -> (done: Result<
    (),
    ErrorCode,
>)
    requires
        old(ctx).pool.stake_acquired_amount > 0,
    ensures
        match old(ctx).outcome(report) {
            Ok(next) => done is Ok && *final(ctx) == next,
            Err(e) => done == Err::<(), ErrorCode>(e) && *final(ctx) == *old(ctx),
        },
        final(ctx).pool == old(ctx).pool,
{
    let moved = match claim_transfer(ctx) {
        Ok(moved) => moved,
        Err(e) => {
            return Err(e);
        },
    };
    match moved.make(report) {
        Ok(_) => {},
        Err(e) => {
            return Err(e);
        },
    }
    ctx.ticket = None;
    ctx.stake_vault_amount = moved.settled_balance(report);
    Ok(())
}

/// The exact part of the reward that a stake would earn, rounded down.
pub open spec fn exact_reward_share(staked: u64, acquired: u64, reward: u64) -> int {
    (staked * reward) / (acquired as int)
}

/// A staker who holds all the stake is owed the stake and the whole reward.
pub proof fn lemma_sole_staker_collects_everything(staked: u64, reward: u64)
    requires
        staked > 0,
    ensures
        payout(staked, staked, reward) == staked + reward,
{
    assert(share_bits(staked, staked) == one()) by {
        vstd::arithmetic::div_mod::lemma_div_by_multiple(one(), staked as int);
        assert(staked * one() == one() * staked) by (nonlinear_arith);
    }
    assert(reward_share(staked, staked, reward) == reward) by {
        vstd::arithmetic::div_mod::lemma_div_by_multiple(reward as int, one());
        assert(one() * reward == reward * one()) by (nonlinear_arith);
    }
}

/// A stake within the stake acquired earns no more than the reward.
pub proof fn lemma_reward_share_within_reward(staked: u64, acquired: u64, reward: u64)
    requires
        0 < acquired,
        staked <= acquired,
    ensures
        0 <= reward_share(staked, acquired, reward) <= reward,
{
    let share = share_bits(staked, acquired);
    lemma_share_fits(staked, acquired);
    assert(share <= one()) by {
        assert(staked * one() <= acquired * one()) by (nonlinear_arith)
            requires
                staked <= acquired,
        ;
        vstd::arithmetic::div_mod::lemma_div_is_ordered(
            staked * one(),
            acquired * one(),
            acquired as int,
        );
        vstd::arithmetic::div_mod::lemma_div_by_multiple(one(), acquired as int);
        assert(acquired * one() == one() * acquired) by (nonlinear_arith);
    }
    assert(0 <= share * reward <= reward * one()) by (nonlinear_arith)
        requires
            0 <= share <= one(),
            0 <= reward,
    ;
    vstd::arithmetic::div_mod::lemma_div_is_ordered(share * reward, reward * one(), one());
    vstd::arithmetic::div_mod::lemma_div_by_multiple(reward as int, one());
    vstd::arithmetic::div_mod::lemma_div_is_ordered(0, share * reward, one());
}

/// Rounding the share down to 64 fractional bits costs at most one unit: the
/// part of the reward that is paid is the exact part, rounded down, or one
/// less, and never more.
pub proof fn lemma_reward_share_is_accurate(staked: u64, acquired: u64, reward: u64)
    requires
        0 < acquired,
    ensures
        exact_reward_share(staked, acquired, reward) - 1 <= reward_share(staked, acquired, reward)
            <= exact_reward_share(staked, acquired, reward),
{
    let a = acquired as int;
    let r = reward as int;
    let unit = one();
    let n = staked * unit;
    let share = n / a;
    let rest = n % a;
    let p = share * r;
    let q = p / unit;
    let m = staked * r;
    let e = m / a;
    vstd::arithmetic::div_mod::lemma_fundamental_div_mod(n, a);
    vstd::arithmetic::div_mod::lemma_mod_bound(n, a);
    vstd::arithmetic::div_mod::lemma_fundamental_div_mod(m, a);
    vstd::arithmetic::div_mod::lemma_mod_bound(m, a);
    lemma_share_fits(staked, acquired);
    assert(p >= 0) by (nonlinear_arith)
        requires
            p == share * r,
            share >= 0,
            r >= 0,
    ;
    assert(unit * m == a * p + rest * r) by (nonlinear_arith)
        requires
            n == a * share + rest,
            n == staked * unit,
            p == share * r,
            m == staked * r,
    ;
    assert(0 <= rest * r <= a * r) by (nonlinear_arith)
        requires
            0 <= rest < a,
            0 <= r,
    ;
    let aq = a * q;
    let ae = a * e;
    assert(unit * aq <= a * p && a * p < unit * aq + unit * a) by (nonlinear_arith)
        requires
            aq == a * q,
            unit * q <= p < unit * q + unit,
            a > 0,
    ;
    assert(q <= e) by (nonlinear_arith)
        requires
            aq == a * q,
            ae == a * e,
            aq < ae + a,
            a > 0,
    ;
    assert(a * r < unit * a) by (nonlinear_arith)
        requires
            0 <= r < unit,
            a > 0,
    ;
    assert(q >= e - 1) by (nonlinear_arith)
        requires
            aq == a * q,
            ae == a * e,
            aq + 2 * a > ae,
            a > 0,
    ;
}

/// A claim whose transfer moved another amount than the payout fails with
/// `InvalidAmountTransferred`.
pub proof fn lemma_claim_needs_exact_transfer(ctx: ClaimReward, amount_after: u64)
    requires
        ctx.transfer() is Ok,
        ctx.transfer()->Ok_0.amount != 0,
        !ctx.transfer()->Ok_0.moved_exactly(amount_after),
    ensures
        ctx.outcome(Ok(amount_after)) == Err::<ClaimReward, ErrorCode>(
            ErrorCode::InvalidAmountTransferred,
        ),
{
}

} // verus!
