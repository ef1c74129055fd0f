//! The pool record, its phases and its creation.

use vstd::prelude::*;

verus! {

/// An identity of 256 bits: an account, a staker, a token type.
#[derive(Clone, Copy, Debug, PartialEq, Eq, Structural)]
pub struct Pubkey {
    pub hi: u128,
    pub lo: u128,
}

/// Why an operation was turned down. Every error ends the operation with
/// nothing changed.
#[derive(Clone, Copy, Debug, PartialEq, Eq, Structural)]
pub enum ErrorCode {
    /// Given bump is invalid.
    InvalidBump,
    /// Given authority does not match the expected one.
    InvalidAuthority,
    /// Given topup duration lasts longer than the lockup duration.
    TopupLongerThanLockup,
    /// Given wallet has not enough funds.
    NotEnoughFunds,
    /// Pool is locked and stake can no longer be moved.
    PoolIsLocked,
    /// Pool is full.
    PoolIsFull,
    /// Pool rewards are full.
    PoolRewardsAreFull,
    /// Pool is not expired yet.
    PoolIsNotExpired,
    /// Pool is expired already.
    PoolIsExpired,
    /// Not enough rewards to collect.
    NotEnoughRewards,
    /// The transfer moved another amount than the one asked for.
    InvalidAmountTransferred,
    /// A counter or a payout left the range of its integer type.
    IntegerOverflow,
}

/// Where a pool stands in time. A phase is derived from the pool's timestamps
/// and never stored.
#[derive(Clone, Copy, Debug, PartialEq, Eq, Structural)]
pub enum Phase {
    /// Stake may be added and removed.
    Topup,
    /// Stake is frozen; only the reward may still be funded.
    Locked,
    /// Rewards may be claimed; nothing else moves.
    Expired,
}

/// The durable record of one staking campaign.
#[derive(Clone, Copy, Debug, PartialEq, Eq, Structural)]
pub struct Pool {
    pub admin: Pubkey,
    pub bump: u8,
    pub genesis: i64,
    pub topup_duration: i64,
    pub lockup_duration: i64,
    pub stake_acquired_amount: u64,
    pub stake_target_amount: u64,
    pub reward_amount: u64,
    pub deposited_reward_amount: u64,
    pub stake_mint: Pubkey,
    pub stake_vault: Pubkey,
}

impl Pool {
    /// The first moment at which stake can no longer be moved.
    pub open spec fn topup_end(&self) -> int {
        self.genesis + self.topup_duration
    }

    /// The last moment before rewards can be claimed.
    pub open spec fn lockup_end(&self) -> int {
        self.genesis + self.lockup_duration
    }

    /// The invariant of a pool: the topup window lies within the lockup, the
    /// stake acquired never exceeds the target, and the reward deposited never
    /// exceeds the reward budget.
    pub open spec fn wf(&self) -> bool {
        &&& self.topup_duration <= self.lockup_duration
        &&& self.stake_acquired_amount <= self.stake_target_amount
        &&& self.deposited_reward_amount <= self.reward_amount
    }

    /// The phase of the pool at the time `now`.
    pub open spec fn phase_at(&self, now: i64) -> Phase {
        if now < self.topup_end() {
            Phase::Topup
        } else if now > self.lockup_end() {
            Phase::Expired
        } else {
            Phase::Locked
        }
    }

    /// Whether stake may still be added or removed at `now`.
    pub fn can_topup(&self, now: i64) -> (open: bool)
        ensures
            open == (now < self.topup_end()),
    {
        (now as i128) < (self.genesis as i128) + (self.topup_duration as i128)
    }

    /// Whether the lockup has passed at `now`.
    pub fn is_expired(&self, now: i64) -> (expired: bool)
        ensures
            expired == (now > self.lockup_end()),
    {
        (now as i128) > (self.genesis as i128) + (self.lockup_duration as i128)
    }

    /// The phase of the pool at `now`.
    pub fn phase(&self, now: i64) -> (phase: Phase)
        ensures
            phase == self.phase_at(now),
    {
        if self.can_topup(now) {
            Phase::Topup
        } else if self.is_expired(now) {
            Phase::Expired
        } else {
            Phase::Locked
        }
    }

    /// Whether the record satisfies the pool invariant. A record that was read
    /// from storage is tested with this before it is worked on.
    pub fn is_well_formed(&self) -> (ok: bool)
        ensures
            ok == self.wf(),
    {
        self.topup_duration <= self.lockup_duration
            && self.stake_acquired_amount <= self.stake_target_amount
            && self.deposited_reward_amount <= self.reward_amount
    }
}

/// What the creator of a pool chooses.
#[derive(Clone, Copy, Debug, PartialEq, Eq, Structural)]
pub struct InitializePoolArgs {
    pub bump: u8,
    pub topup_duration: i64,
    pub lockup_duration: i64,
    pub target_amount: u64,
    pub reward_amount: u64,
}

/// What surrounds the creation of a pool: who creates it, which token is
/// staked, which account holds the funds, and the time.
#[derive(Clone, Copy, Debug, PartialEq, Eq, Structural)]
pub struct InitializePool {
    pub admin: Pubkey,
    pub stake_mint: Pubkey,
    pub stake_vault: Pubkey,
    pub now: i64,
}

/// The pool that `initialize_pool` creates from valid arguments.
pub open spec fn fresh_pool(ctx: InitializePool, args: InitializePoolArgs) -> Pool {
    Pool {
        admin: ctx.admin,
        bump: args.bump,
        genesis: ctx.now,
        topup_duration: args.topup_duration,
        lockup_duration: args.lockup_duration,
        stake_acquired_amount: 0,
        stake_target_amount: args.target_amount,
        reward_amount: args.reward_amount,
        deposited_reward_amount: 0,
        stake_mint: ctx.stake_mint,
        stake_vault: ctx.stake_vault,
    }
}

/// Creates a pool whose genesis is the current time and whose counters are
/// zero. Fails with `TopupLongerThanLockup` exactly when the topup duration
/// exceeds the lockup duration.
pub fn initialize_pool(ctx: &InitializePool, args: &InitializePoolArgs) -> (created: Result<
    Pool,
    ErrorCode,
>)
    ensures
        args.topup_duration <= args.lockup_duration ==> created == Ok::<Pool, ErrorCode>(
            fresh_pool(*ctx, *args),
        ),
        args.topup_duration > args.lockup_duration ==> created == Err::<Pool, ErrorCode>(
            ErrorCode::TopupLongerThanLockup,
        ),
        created is Ok ==> created->Ok_0.wf(),
{
    if args.topup_duration > args.lockup_duration {
        return Err(ErrorCode::TopupLongerThanLockup);
    }
    Ok(
        Pool {
            admin: ctx.admin,
            bump: args.bump,
            genesis: ctx.now,
            topup_duration: args.topup_duration,
            lockup_duration: args.lockup_duration,
            stake_acquired_amount: 0,
            stake_target_amount: args.target_amount,
            reward_amount: args.reward_amount,
            deposited_reward_amount: 0,
            stake_mint: ctx.stake_mint,
            stake_vault: ctx.stake_vault,
        },
    )
}

} // verus!
