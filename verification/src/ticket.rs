//! A staker's position in a pool.

use crate::pool::Pubkey;
use vstd::prelude::*;

verus! {

/// The record of what one staker holds in one pool.
#[derive(Clone, Copy, Debug, PartialEq, Eq, Structural)]
pub struct Ticket {
    pub authority: Pubkey,
    pub pool: Pubkey,
    pub staked_amount: u64,
    pub bump: u8,
}

impl Ticket {
    /// Whether the ticket is the one of `staker` in the pool `pool`.
    pub open spec fn belongs_to(&self, pool: Pubkey, staker: Pubkey) -> bool {
        self.authority == staker && self.pool == pool
    }

    /// Whether the ticket is the one of `staker` in the pool `pool`.
    pub fn is_owned_by(&self, pool: Pubkey, staker: Pubkey) -> (owned: bool)
        ensures
            owned == self.belongs_to(pool, staker),
    {
        self.authority == staker && self.pool == pool
    }
}

impl Default for Ticket {
    /// A ticket of nobody, in no pool, with nothing staked.
    fn default() -> (ticket: Self)
        ensures
            ticket == (Ticket {
                authority: Pubkey { hi: 0, lo: 0 },
                pool: Pubkey { hi: 0, lo: 0 },
                staked_amount: 0,
                bump: 0,
            }),
    {
        Ticket {
            authority: Pubkey { hi: 0, lo: 0 },
            pool: Pubkey { hi: 0, lo: 0 },
            staked_amount: 0,
            bump: 0,
        }
    }
}

} // verus!
