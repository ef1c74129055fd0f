//! Adding stake to a pool and taking it out again, while the pool is open for
//! top-ups.

use crate::pool::{ErrorCode, Pool, Pubkey};
use crate::ticket::Ticket;
use crate::transfer::{PoolSeeds, TokenAccount, TokenTransfer, TransferError};
use vstd::prelude::*;

verus! {

/// The smaller of two amounts.
pub open spec fn least(a: int, b: int) -> int {
    if a <= b {
        a
    } else {
        b
    }
}

/// What a deposit works on: the pool and its identity, the staker, the
/// staker's ticket if there is one, the wallet that pays, and the time.
#[derive(Clone, Copy, Debug, PartialEq, Eq)]
pub struct AddStake {
    pub pool: Pool,
    pub pool_key: Pubkey,
    pub staker: Pubkey,
    pub ticket: Option<Ticket>,
    pub source_wallet: TokenAccount,
    pub now: i64,
}

impl AddStake {
    /// What the staker holds in the pool before the deposit.
    pub open spec fn staked(&self) -> u64 {
        match self.ticket {
            Some(ticket) => ticket.staked_amount,
            None => 0,
        }
    }

    /// How much stake the pool can still take.
    pub open spec fn remaining_capacity(&self) -> int {
        self.pool.stake_target_amount - self.pool.stake_acquired_amount
    }

    /// The transfer that a deposit of `amount` asks for, or why there is none.
    /// The amount is clamped to the capacity that remains.
    pub open spec fn transfer(&self, amount: u64) -> Result<TokenTransfer, ErrorCode> {
        let clamped = least(amount as int, self.remaining_capacity());
        if self.ticket is Some && !self.ticket->Some_0.belongs_to(self.pool_key, self.staker) {
            Err(ErrorCode::InvalidAuthority)
        } else if self.source_wallet.amount < amount {
            Err(ErrorCode::NotEnoughFunds)
        } else if self.now >= self.pool.topup_end() {
            Err(ErrorCode::PoolIsLocked)
        } else if self.remaining_capacity() < 0 {
            Err(ErrorCode::IntegerOverflow)
        } else if clamped == 0 {
            Err(ErrorCode::PoolIsFull)
        } else if self.staked() + clamped > u64::MAX {
            Err(ErrorCode::IntegerOverflow)
        } else {
            Ok(
                TokenTransfer {
                    amount: clamped as u64,
                    from: self.source_wallet.key,
                    to: self.pool.stake_vault,
                    amount_before: self.source_wallet.amount,
                    signers: None,
                },
            )
        }
    }

    /// The state after a deposit whose transfer `moved` has passed the guard.
    /// A ticket that was there keeps its bump.
    pub open spec fn committed(
        &self,
        moved: TokenTransfer,
        bump: u8,
        report: Result<u64, TransferError>,
    ) -> AddStake {
        AddStake {
            pool: Pool {
                stake_acquired_amount: (self.pool.stake_acquired_amount + moved.amount) as u64,
                ..self.pool
            },
            ticket: Some(
                Ticket {
                    authority: self.staker,
                    pool: self.pool_key,
                    staked_amount: (self.staked() + moved.amount) as u64,
                    bump: match self.ticket {
                        Some(ticket) => ticket.bump,
                        None => bump,
                    },
                },
            ),
            source_wallet: TokenAccount {
                key: self.source_wallet.key,
                amount: moved.balance_after(report),
            },
            ..*self
        }
    }

    /// What a deposit of `amount` comes to, given the report of its transfer:
    /// the next state, or the error that leaves the state as it is.
    pub open spec fn outcome(&self, amount: u64, bump: u8, report: Result<u64, TransferError>)
        -> Result<AddStake, ErrorCode> {
        match self.transfer(amount) {
            Err(e) => Err(e),
            Ok(moved) => match moved.verdict(report) {
                Err(e) => Err(e),
                Ok(_) => Ok(self.committed(moved, bump, report)),
            },
        }
    }
}

/// Says which transfer a deposit of `amount` needs. It fails, in this order,
/// with `InvalidAuthority` for a ticket of another staker or pool, with
/// `NotEnoughFunds` where the wallet holds less than `amount`, with
/// `PoolIsLocked` once the topup window has closed, with `PoolIsFull` where
/// nothing can be taken, and with `IntegerOverflow` where a counter would
/// leave its range.
pub fn stake_transfer(ctx: &AddStake, amount: u64) -> (asked: Result<TokenTransfer, ErrorCode>)
    ensures
        asked == ctx.transfer(amount),
{
    let staked: u64 = match ctx.ticket {
        Some(ticket) => {
            if !ticket.is_owned_by(ctx.pool_key, ctx.staker) {
                return Err(ErrorCode::InvalidAuthority);
            }
            ticket.staked_amount
        },
        None => 0,
    };
    if ctx.source_wallet.amount < amount {
        return Err(ErrorCode::NotEnoughFunds);
    }
    if !ctx.pool.can_topup(ctx.now) {
        return Err(ErrorCode::PoolIsLocked);
    }
    let remaining: u64 = match ctx.pool.stake_target_amount.checked_sub(
        ctx.pool.stake_acquired_amount,
    ) {
        Some(remaining) => remaining,
        None => {
            return Err(ErrorCode::IntegerOverflow);
        },
    };
    let transfer_amount: u64 = if amount <= remaining {
        amount
    } else {
        remaining
    };
    if transfer_amount == 0 {
        return Err(ErrorCode::PoolIsFull);
    }
    if staked.checked_add(transfer_amount).is_none() {
        return Err(ErrorCode::IntegerOverflow);
    }
    Ok(
        TokenTransfer {
            amount: transfer_amount,
            from: ctx.source_wallet.key,
            to: ctx.pool.stake_vault,
            amount_before: ctx.source_wallet.amount,
            signers: None,
        },
    )
}

/// Deposits up to `amount` for the staker. `report` says what the transfer
/// named by `stake_transfer` did: the wallet's balance as read again, or why
/// the transfer failed. On success the pool and the ticket both grow by the
/// amount moved, and the ticket is created with `bump` if there was none. On
/// any error nothing changes.
pub fn add_stake(
    ctx: &mut AddStake,
    amount: u64,
    bump: u8,
    report: Result<u64, TransferError>,
) -> (done: Result<(), ErrorCode>)
    ensures
        match old(ctx).outcome(amount, bump, report) {
            Ok(next) => done is Ok && *final(ctx) == next,
            Err(e) => done == Err::<(), ErrorCode>(e) && *final(ctx) == *old(ctx),
        },
        old(ctx).pool.wf() ==> final(ctx).pool.wf(),
{
    let moved = match stake_transfer(ctx, amount) {
        Ok(moved) => moved,
        Err(e) => {
            return Err(e);
        },
    };
    match moved.make(report) {
        Ok(_) => {},
        Err(e) => {
            return Err(e);
        },
    }
    let (staked, ticket_bump): (u64, u8) = match ctx.ticket {
        Some(ticket) => (ticket.staked_amount, ticket.bump),
        None => (0, bump),
    };
    ctx.pool.stake_acquired_amount = ctx.pool.stake_acquired_amount + moved.amount;
    ctx.ticket = Some(
        Ticket {
            authority: ctx.staker,
            pool: ctx.pool_key,
            staked_amount: staked + moved.amount,
            bump: ticket_bump,
        },
    );
    ctx.source_wallet.amount = moved.settled_balance(report);
    Ok(())
}

/// What a withdrawal works on: the pool and its identity, the staker and the
/// ticket, the balance of the pool's vault, the wallet that receives, and the time.
#[derive(Clone, Copy, Debug, PartialEq, Eq)]
pub struct RemoveStake {
    pub pool: Pool,
    pub pool_key: Pubkey,
    pub staker: Pubkey,
    pub ticket: Option<Ticket>,
    /// The balance of the pool's vault.
    pub stake_vault_amount: u64,
    pub target_wallet: Pubkey,
    pub now: i64,
}

impl RemoveStake {
    /// The transfer that a withdrawal of `amount` asks for, or why there is
    /// none. The amount is clamped to what the ticket holds, and the pool
    /// itself authorises the payment.
    pub open spec fn transfer(&self, amount: u64) -> Result<TokenTransfer, ErrorCode> {
        if self.ticket is None || !self.ticket->Some_0.belongs_to(self.pool_key, self.staker) {
            Err(ErrorCode::InvalidAuthority)
        } else if self.now >= self.pool.topup_end() {
            Err(ErrorCode::PoolIsLocked)
        } else if least(amount as int, self.ticket->Some_0.staked_amount as int)
            > self.pool.stake_acquired_amount {
            Err(ErrorCode::IntegerOverflow)
        } else {
            Ok(
                TokenTransfer {
                    amount: least(amount as int, self.ticket->Some_0.staked_amount as int) as u64,
                    from: self.pool.stake_vault,
                    to: self.target_wallet,
                    amount_before: self.stake_vault_amount,
                    signers: Some(
                        PoolSeeds {
                            pool: self.pool_key,
                            admin: self.pool.admin,
                            bump: self.pool.bump,
                        },
                    ),
                },
            )
        }
    }

    /// The state after a withdrawal whose transfer `moved` has passed the
    /// guard. A ticket that holds nothing afterwards is closed.
    pub open spec fn committed(&self, moved: TokenTransfer, report: Result<u64, TransferError>)
        -> RemoveStake {
        RemoveStake {
            pool: Pool {
                stake_acquired_amount: (self.pool.stake_acquired_amount - moved.amount) as u64,
                ..self.pool
            },
            ticket: if self.ticket->Some_0.staked_amount == moved.amount {
                None
            } else {
                Some(
                    Ticket {
                        staked_amount: (self.ticket->Some_0.staked_amount - moved.amount) as u64,
                        ..self.ticket->Some_0
                    },
                )
            },
            stake_vault_amount: moved.balance_after(report),
            ..*self
        }
    }

    /// What a withdrawal of `amount` comes to, given the report of its
    /// transfer: the next state, or the error that leaves the state as it is.
    pub open spec fn outcome(&self, amount: u64, report: Result<u64, TransferError>) -> Result<
        RemoveStake,
        ErrorCode,
    > {
        match self.transfer(amount) {
            Err(e) => Err(e),
            Ok(moved) => match moved.verdict(report) {
                Err(e) => Err(e),
                Ok(_) => Ok(self.committed(moved, report)),
            },
        }
    }
}

/// Says which transfer a withdrawal of `amount` needs. It fails, in this
/// order, with `InvalidAuthority` for a missing ticket or one of another
/// staker or pool, with `PoolIsLocked` once the topup window has closed, and
/// with `IntegerOverflow` where the pool has acquired less than is to leave.
/// A request of zero gives a transfer of zero, which is never handed on.
pub fn unstake_transfer(ctx: &RemoveStake, amount: u64) -> (asked: Result<
    TokenTransfer,
    ErrorCode,
>)
    ensures
        asked == ctx.transfer(amount),
{
    let ticket = match ctx.ticket {
        Some(ticket) => ticket,
        None => {
            return Err(ErrorCode::InvalidAuthority);
        },
    };
    if !ticket.is_owned_by(ctx.pool_key, ctx.staker) {
        return Err(ErrorCode::InvalidAuthority);
    }
    if !ctx.pool.can_topup(ctx.now) {
        return Err(ErrorCode::PoolIsLocked);
    }
    let transfer_amount: u64 = if amount <= ticket.staked_amount {
        amount
    } else {
        ticket.staked_amount
    };
    if transfer_amount > ctx.pool.stake_acquired_amount {
        return Err(ErrorCode::IntegerOverflow);
    }
    Ok(
        TokenTransfer {
            amount: transfer_amount,
            from: ctx.pool.stake_vault,
            to: ctx.target_wallet,
            amount_before: ctx.stake_vault_amount,
            signers: Some(
                PoolSeeds { pool: ctx.pool_key, admin: ctx.pool.admin, bump: ctx.pool.bump },
            ),
        },
    )
}

/// Withdraws up to `amount` of the staker's stake. `report` says what the
/// transfer named by `unstake_transfer` did: the vault's balance as read
/// again, or why the transfer failed. On success the pool and the ticket both
/// shrink by the amount moved, and a ticket that is left with nothing is
/// closed. On any error nothing changes.
pub fn remove_stake(ctx: &mut RemoveStake, amount: u64, report: Result<u64, TransferError>) -> (done:
    Result<(), ErrorCode>)
    ensures
        match old(ctx).outcome(amount, report) {
            Ok(next) => done is Ok && *final(ctx) == next,
            Err(e) => done == Err::<(), ErrorCode>(e) && *final(ctx) == *old(ctx),
        },
        old(ctx).pool.wf() ==> final(ctx).pool.wf(),
{
    let moved = match unstake_transfer(ctx, amount) {
        Ok(moved) => moved,
        Err(e) => {
            return Err(e);
        },
    };
    match moved.make(report) {
        Ok(_) => {},
        Err(e) => {
            return Err(e);
        },
    }
    let ticket = match ctx.ticket {
        Some(ticket) => ticket,
        None => {
            return Err(ErrorCode::InvalidAuthority);
        },
    };
    ctx.pool.stake_acquired_amount = ctx.pool.stake_acquired_amount - moved.amount;
    let left: u64 = ticket.staked_amount - moved.amount;
    if left == 0 {
        ctx.ticket = None;
    } else {
        ctx.ticket = Some(
            Ticket {
                authority: ticket.authority,
                pool: ticket.pool,
                staked_amount: left,
                bump: ticket.bump,
            },
        );
    }
    ctx.stake_vault_amount = moved.settled_balance(report);
    Ok(())
}

/// A deposit never moves more than the pool can still take: a request above
/// the remaining capacity moves exactly that capacity, and fills the pool.
pub proof fn lemma_deposit_is_clamped(
    ctx: AddStake,
    amount: u64,
    bump: u8,
    report: Result<u64, TransferError>,
)
    requires
        ctx.transfer(amount) is Ok,
    ensures
        ctx.transfer(amount)->Ok_0.amount <= ctx.remaining_capacity(),
        ctx.transfer(amount)->Ok_0.amount <= amount,
        amount > ctx.remaining_capacity() ==> ctx.transfer(amount)->Ok_0.amount
            == ctx.remaining_capacity(),
        amount > ctx.remaining_capacity() && ctx.outcome(amount, bump, report) is Ok
            ==> ctx.outcome(amount, bump, report)->Ok_0.pool.stake_acquired_amount
            == ctx.pool.stake_target_amount,
{
}

/// Once the topup window has closed, a deposit that the wallet could pay
/// fails with `PoolIsLocked`, whatever the transfer is said to have done.
pub proof fn lemma_locked_pool_takes_no_stake(
    ctx: AddStake,
    amount: u64,
    bump: u8,
    report: Result<u64, TransferError>,
)
    requires
        ctx.now >= ctx.pool.topup_end(),
        ctx.ticket is Some ==> ctx.ticket->Some_0.belongs_to(ctx.pool_key, ctx.staker),
        ctx.source_wallet.amount >= amount,
    ensures
        ctx.transfer(amount) == Err::<TokenTransfer, ErrorCode>(ErrorCode::PoolIsLocked),
        ctx.outcome(amount, bump, report) == Err::<AddStake, ErrorCode>(ErrorCode::PoolIsLocked),
{
}

/// Once the topup window has closed, a withdrawal by the ticket's holder
/// fails with `PoolIsLocked`, whatever the transfer is said to have done.
pub proof fn lemma_locked_pool_gives_no_stake(
    ctx: RemoveStake,
    amount: u64,
    report: Result<u64, TransferError>,
)
    requires
        ctx.now >= ctx.pool.topup_end(),
        ctx.ticket is Some,
        ctx.ticket->Some_0.belongs_to(ctx.pool_key, ctx.staker),
    ensures
        ctx.transfer(amount) == Err::<TokenTransfer, ErrorCode>(ErrorCode::PoolIsLocked),
        ctx.outcome(amount, report) == Err::<RemoveStake, ErrorCode>(ErrorCode::PoolIsLocked),
{
}

/// A withdrawal of zero that goes through changes neither the pool nor the
/// vault, and a ticket that holds anything is left as it is.
pub proof fn lemma_zero_withdrawal_changes_nothing(
    ctx: RemoveStake,
    report: Result<u64, TransferError>,
)
    requires
        ctx.outcome(0, report) is Ok,
    ensures
        ctx.outcome(0, report)->Ok_0.pool == ctx.pool,
        ctx.outcome(0, report)->Ok_0.stake_vault_amount == ctx.stake_vault_amount,
        ctx.ticket->Some_0.staked_amount > 0 ==> ctx.outcome(0, report)->Ok_0 == ctx,
        ctx.outcome(0, report)->Ok_0.ticket is Some ==> ctx.outcome(0, report)->Ok_0.ticket
            == ctx.ticket,
{
}

/// A deposit whose transfer moved another amount than the one asked for
/// fails with `InvalidAmountTransferred`.
pub proof fn lemma_deposit_needs_exact_transfer(
    ctx: AddStake,
    amount: u64,
    bump: u8,
    amount_after: u64,
)
    requires
        ctx.transfer(amount) is Ok,
        !ctx.transfer(amount)->Ok_0.moved_exactly(amount_after),
    ensures
        ctx.outcome(amount, bump, Ok(amount_after)) == Err::<AddStake, ErrorCode>(
            ErrorCode::InvalidAmountTransferred,
        ),
{
}

/// A withdrawal whose transfer moved another amount than the one asked for
/// fails with `InvalidAmountTransferred`. A transfer of zero is not handed
/// on, so nothing can go wrong with it.
pub proof fn lemma_withdrawal_needs_exact_transfer(ctx: RemoveStake, amount: u64, amount_after: u64)
    requires
        ctx.transfer(amount) is Ok,
        ctx.transfer(amount)->Ok_0.amount != 0,
        !ctx.transfer(amount)->Ok_0.moved_exactly(amount_after),
    ensures
        ctx.outcome(amount, Ok(amount_after)) == Err::<RemoveStake, ErrorCode>(
            ErrorCode::InvalidAmountTransferred,
        ),
{
}

/// A deposit keeps the pool within its target: a pool that satisfied its
/// invariant before a deposit satisfies it afterwards.
pub proof fn lemma_deposit_keeps_pool_valid(
    ctx: AddStake,
    amount: u64,
    bump: u8,
    report: Result<u64, TransferError>,
)
    requires
        ctx.pool.wf(),
        ctx.outcome(amount, bump, report) is Ok,
    ensures
        ctx.outcome(amount, bump, report)->Ok_0.pool.wf(),
        ctx.outcome(amount, bump, report)->Ok_0.pool.stake_acquired_amount
            - ctx.pool.stake_acquired_amount == ctx.outcome(
            amount,
            bump,
            report,
        )->Ok_0.ticket->Some_0.staked_amount - ctx.staked(),
{
}

/// A withdrawal keeps the pool valid: a pool that satisfied its invariant
/// before a withdrawal satisfies it afterwards.
pub proof fn lemma_withdrawal_keeps_pool_valid(
    ctx: RemoveStake,
    amount: u64,
    report: Result<u64, TransferError>,
)
    requires
        ctx.pool.wf(),
        ctx.outcome(amount, report) is Ok,
    ensures
        ctx.outcome(amount, report)->Ok_0.pool.wf(),
        ctx.outcome(amount, report)->Ok_0.pool.stake_acquired_amount
            <= ctx.pool.stake_acquired_amount,
{
}

} // verus!
