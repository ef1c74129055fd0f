//! A fixed-capacity, time-phased staking pool.
//!
//! Stakers lock a token into a shared pool while it is open for top-ups, a
//! reward budget is funded separately, and once the lockup has passed every
//! staker collects the principal together with a share of the reward that is
//! proportional to the contribution.
//!
//! The library decides; it moves no funds itself. Every operation comes in two
//! parts: a function that says which transfer has to be made for the request,
//! and the operation proper, which is given what the transfer did and either
//! commits the whole change or leaves everything as it was.

pub mod fixed_point;
pub mod funding;
pub mod ledger;
pub mod pool;
pub mod reward;
pub mod stake;
pub mod ticket;
pub mod transfer;

pub use funding::{add_reward, reward_transfer, AddReward};
pub use pool::{initialize_pool, ErrorCode, InitializePool, InitializePoolArgs, Phase, Pool, Pubkey};
pub use reward::{claim_reward, claim_transfer, reward_payout, ClaimReward};
pub use stake::{add_stake, remove_stake, stake_transfer, unstake_transfer, AddStake, RemoveStake};
pub use ticket::Ticket;
pub use transfer::{PoolSeeds, TokenAccount, TokenTransfer, TransferError};
