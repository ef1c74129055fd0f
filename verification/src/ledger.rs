//! The tickets of a pool taken together: what they hold adds up to what the
//! pool has acquired, as long as stake is only added and removed.

use crate::pool::Pool;
use crate::reward::{
    exact_reward_share, lemma_reward_share_is_accurate, payout, reward_share,
};
use crate::stake::{AddStake, RemoveStake};
use crate::ticket::Ticket;
use crate::transfer::TransferError;
use vstd::prelude::*;

verus! {

/// The sum of what the tickets hold.
pub open spec fn total_staked(tickets: Seq<Ticket>) -> int
    decreases tickets.len(),
{
    if tickets.len() == 0 {
        0
    } else {
        total_staked(tickets.drop_last()) + tickets.last().staked_amount
    }
}

/// Whether the open tickets of a pool account for all the stake it has
/// acquired.
pub open spec fn balanced(tickets: Seq<Ticket>, pool: Pool) -> bool {
    total_staked(tickets) == pool.stake_acquired_amount
}

/// The open tickets after a deposit on the ticket at `slot`, or on a new
/// ticket where the staker had none.
pub open spec fn after_deposit(tickets: Seq<Ticket>, slot: int, before: AddStake, next: AddStake)
    -> Seq<Ticket> {
    if before.ticket is Some {
        tickets.update(slot, next.ticket->Some_0)
    } else {
        tickets.push(next.ticket->Some_0)
    }
}

/// The open tickets after a withdrawal from the ticket at `slot`, which is
/// gone where it was closed.
pub open spec fn after_withdrawal(tickets: Seq<Ticket>, slot: int, next: RemoveStake) -> Seq<
    Ticket,
> {
    if next.ticket is Some {
        tickets.update(slot, next.ticket->Some_0)
    } else {
        tickets.remove(slot)
    }
}

proof fn lemma_total_push(tickets: Seq<Ticket>, ticket: Ticket)
    ensures
        total_staked(tickets.push(ticket)) == total_staked(tickets) + ticket.staked_amount,
{
    assert(tickets.push(ticket).drop_last() =~= tickets);
}

proof fn lemma_total_update(tickets: Seq<Ticket>, slot: int, ticket: Ticket)
    requires
        0 <= slot < tickets.len(),
    ensures
        total_staked(tickets.update(slot, ticket)) == total_staked(tickets)
            - tickets[slot].staked_amount + ticket.staked_amount,
    decreases tickets.len(),
{
    let updated = tickets.update(slot, ticket);
    if slot == tickets.len() - 1 {
        assert(updated.drop_last() =~= tickets.drop_last());
    } else {
        assert(updated.drop_last() =~= tickets.drop_last().update(slot, ticket));
        lemma_total_update(tickets.drop_last(), slot, ticket);
    }
}

proof fn lemma_total_remove(tickets: Seq<Ticket>, slot: int)
    requires
        0 <= slot < tickets.len(),
    ensures
        total_staked(tickets.remove(slot)) == total_staked(tickets) - tickets[slot].staked_amount,
    decreases tickets.len(),
{
    let shorter = tickets.remove(slot);
    if slot == tickets.len() - 1 {
        assert(shorter =~= tickets.drop_last());
    } else {
        assert(shorter.drop_last() =~= tickets.drop_last().remove(slot));
        assert(shorter.last() == tickets.last());
        lemma_total_remove(tickets.drop_last(), slot);
    }
}

/// No ticket holds more than all of them together.
pub proof fn lemma_ticket_within_total(tickets: Seq<Ticket>, slot: int)
    requires
        0 <= slot < tickets.len(),
    ensures
        0 <= tickets[slot].staked_amount <= total_staked(tickets),
    decreases tickets.len(),
{
    lemma_total_nonnegative(tickets.drop_last());
    if slot < tickets.len() - 1 {
        lemma_ticket_within_total(tickets.drop_last(), slot);
    }
}

proof fn lemma_total_nonnegative(tickets: Seq<Ticket>)
    ensures
        total_staked(tickets) >= 0,
    decreases tickets.len(),
{
    if tickets.len() > 0 {
        lemma_total_nonnegative(tickets.drop_last());
    }
}

/// A deposit keeps the books: if the open tickets added up to the stake
/// acquired before it, they do so after it, whether the staker's ticket was
/// among them at `slot` or is new.
pub proof fn lemma_deposit_keeps_balance(
    tickets: Seq<Ticket>,
    slot: int,
    before: AddStake,
    amount: u64,
    bump: u8,
    report: Result<u64, TransferError>,
)
    requires
        balanced(tickets, before.pool),
        before.ticket is Some ==> 0 <= slot < tickets.len() && tickets[slot]
            == before.ticket->Some_0,
        before.outcome(amount, bump, report) is Ok,
    ensures
        balanced(
            after_deposit(tickets, slot, before, before.outcome(amount, bump, report)->Ok_0),
            before.outcome(amount, bump, report)->Ok_0.pool,
        ),
{
    let next = before.outcome(amount, bump, report)->Ok_0;
    if before.ticket is Some {
        lemma_total_update(tickets, slot, next.ticket->Some_0);
    } else {
        lemma_total_push(tickets, next.ticket->Some_0);
    }
}

/// A withdrawal keeps the books: if the open tickets added up to the stake
/// acquired before it, they do so after it, whether the ticket at `slot`
/// stays open or is closed.
pub proof fn lemma_withdrawal_keeps_balance(
    tickets: Seq<Ticket>,
    slot: int,
    before: RemoveStake,
    amount: u64,
    report: Result<u64, TransferError>,
)
    requires
        balanced(tickets, before.pool),
        0 <= slot < tickets.len(),
        before.ticket == Some(tickets[slot]),
        before.outcome(amount, report) is Ok,
    ensures
        balanced(
            after_withdrawal(tickets, slot, before.outcome(amount, report)->Ok_0),
            before.outcome(amount, report)->Ok_0.pool,
        ),
{
    let next = before.outcome(amount, report)->Ok_0;
    if next.ticket is Some {
        lemma_total_update(tickets, slot, next.ticket->Some_0);
    } else {
        lemma_total_remove(tickets, slot);
    }
}

/// While the books are kept, no ticket holds more than the pool has acquired.
pub proof fn lemma_ticket_within_pool(tickets: Seq<Ticket>, slot: int, pool: Pool)
    requires
        balanced(tickets, pool),
        0 <= slot < tickets.len(),
    ensures
        tickets[slot].staked_amount <= pool.stake_acquired_amount,
{
    lemma_ticket_within_total(tickets, slot);
}

/// What the holders of the tickets are owed together once the pool has
/// expired.
pub open spec fn total_owed(tickets: Seq<Ticket>, pool: Pool) -> int
    decreases tickets.len(),
{
    if tickets.len() == 0 {
        0
    } else {
        total_owed(tickets.drop_last(), pool) + payout(
            tickets.last().staked_amount,
            pool.stake_acquired_amount,
            pool.reward_amount,
        )
    }
}

proof fn lemma_owed_within_shares(tickets: Seq<Ticket>, pool: Pool)
    requires
        pool.stake_acquired_amount > 0,
    ensures
        pool.stake_acquired_amount * (total_owed(tickets, pool) - total_staked(tickets))
            <= total_staked(tickets) * pool.reward_amount,
    decreases tickets.len(),
{
    let a = pool.stake_acquired_amount as int;
    let r = pool.reward_amount as int;
    if tickets.len() == 0 {
        assert(a * 0 == 0 && 0 * r == 0) by (nonlinear_arith);
    } else {
        let rest = tickets.drop_last();
        let staked = tickets.last().staked_amount;
        let part = reward_share(staked, pool.stake_acquired_amount, pool.reward_amount);
        let exact = exact_reward_share(staked, pool.stake_acquired_amount, pool.reward_amount);
        lemma_owed_within_shares(rest, pool);
        lemma_reward_share_is_accurate(staked, pool.stake_acquired_amount, pool.reward_amount);
        vstd::arithmetic::div_mod::lemma_fundamental_div_mod(staked * r, a);
        vstd::arithmetic::div_mod::lemma_mod_bound(staked * r, a);
        let owed_rest = total_owed(rest, pool) - total_staked(rest);
        let staked_rest = total_staked(rest);
        assert(a * (owed_rest + part) <= (staked_rest + staked) * r) by (nonlinear_arith)
            requires
                a * owed_rest <= staked_rest * r,
                part <= exact,
                a * exact <= staked * r,
                a > 0,
        ;
    }
}

/// A pool that holds all the stake and the whole reward can pay every claim:
/// while the books are kept, the holders of the open tickets are together owed
/// no more than the stake acquired and the reward.
pub proof fn lemma_claims_are_covered(tickets: Seq<Ticket>, pool: Pool)
    requires
        balanced(tickets, pool),
        pool.stake_acquired_amount > 0,
    ensures
        total_owed(tickets, pool) <= pool.stake_acquired_amount + pool.reward_amount,
{
    lemma_owed_within_shares(tickets, pool);
    let a = pool.stake_acquired_amount as int;
    let r = pool.reward_amount as int;
    let extra = total_owed(tickets, pool) - total_staked(tickets);
    assert(extra <= r) by (nonlinear_arith)
        requires
            a * extra <= a * r,
            a > 0,
    ;
}

} // verus!
