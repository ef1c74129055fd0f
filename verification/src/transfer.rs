//! Transfers of tokens, and the guard that holds each one to its amount.
//!
//! The library asks for a transfer by handing out a `TokenTransfer`; whoever
//! runs the operation performs it and reports what happened. The guard then
//! compares the balance of the paying account before and after.

use crate::pool::{ErrorCode, Pubkey};
use vstd::prelude::*;

verus! {

/// A token account as far as the pool reads it: its identity and its balance.
#[derive(Clone, Copy, Debug, PartialEq, Eq, Structural)]
pub struct TokenAccount {
    pub key: Pubkey,
    pub amount: u64,
}

/// What the pool's own authority over its vault is derived from. It holds no
/// secret: the authority is computed afresh from these values whenever the
/// pool pays out.
#[derive(Clone, Copy, Debug, PartialEq, Eq, Structural)]
pub struct PoolSeeds {
    pub pool: Pubkey,
    pub admin: Pubkey,
    pub bump: u8,
}

/// Why a transfer was not made.
#[derive(Clone, Copy, Debug, PartialEq, Eq, Structural)]
pub enum TransferError {
    /// The paying account holds less than the amount.
    InsufficientBalance,
    /// The authority given may not move funds out of the paying account.
    Unauthorized,
}

/// A transfer that an operation asks for.
#[derive(Clone, Copy, Debug, PartialEq, Eq, Structural)]
pub struct TokenTransfer {
    /// How much is to move.
    pub amount: u64,
    /// The paying account.
    pub from: Pubkey,
    /// The receiving account.
    pub to: Pubkey,
    /// The balance of the paying account before the transfer.
    pub amount_before: u64,
    /// `None` where the caller signs; the pool's seeds where the pool pays.
    pub signers: Option<PoolSeeds>,
}

/// The error of the library that stands for a failed transfer.
pub open spec fn transfer_failure(e: TransferError) -> ErrorCode {
    match e {
        TransferError::InsufficientBalance => ErrorCode::NotEnoughFunds,
        TransferError::Unauthorized => ErrorCode::InvalidAuthority,
    }
}

impl TokenTransfer {
    /// Whether a balance of `amount_after` shows that exactly `amount` has
    /// moved.
    pub open spec fn moved_exactly(&self, amount_after: u64) -> bool {
        if amount_after <= self.amount_before {
            self.amount_before - amount_after == self.amount
        } else {
            amount_after - self.amount_before == self.amount
        }
    }

    /// What the guard says of a report. A transfer of zero is never handed on,
    /// so no report is read for it. Any other transfer passes only if it was
    /// made and moved exactly its amount.
    pub open spec fn verdict(&self, report: Result<u64, TransferError>) -> Result<(), ErrorCode> {
        if self.amount == 0 {
            Ok(())
        } else {
            match report {
                Err(e) => Err(transfer_failure(e)),
                Ok(amount_after) => if self.moved_exactly(amount_after) {
                    Ok(())
                } else {
                    Err(ErrorCode::InvalidAmountTransferred)
                },
            }
        }
    }

    /// The balance of the paying account once the guard has passed.
    pub open spec fn balance_after(&self, report: Result<u64, TransferError>) -> u64 {
        if self.amount == 0 || report is Err {
            self.amount_before
        } else {
            report->Ok_0
        }
    }

    /// Whether the transfer has to be handed on at all.
    pub fn is_needed(&self) -> (needed: bool)
        ensures
            needed == (self.amount != 0),
    {
        self.amount != 0
    }

    /// Holds the transfer to its amount. `report` is the balance of the paying
    /// account as read again after the transfer, or the reason why the
    /// transfer was not made.
    pub fn make(&self, report: Result<u64, TransferError>) -> (checked: Result<(), ErrorCode>)
        ensures
            checked == self.verdict(report),
    {
        if self.amount == 0 {
            return Ok(());
        }
        match report {
            Err(TransferError::InsufficientBalance) => Err(ErrorCode::NotEnoughFunds),
            Err(TransferError::Unauthorized) => Err(ErrorCode::InvalidAuthority),
            Ok(amount_after) => {
                let moved: u64 = if amount_after <= self.amount_before {
                    self.amount_before - amount_after
                } else {
                    amount_after - self.amount_before
                };
                if moved == self.amount {
                    Ok(())
                } else {
                    Err(ErrorCode::InvalidAmountTransferred)
                }
            },
        }
    }

    /// The balance of the paying account after a transfer that passed the
    /// guard.
    pub fn settled_balance(&self, report: Result<u64, TransferError>) -> (balance: u64)
        ensures
            balance == self.balance_after(report),
    {
        if self.amount == 0 {
            self.amount_before
        } else {
            match report {
                Ok(amount_after) => amount_after,
                Err(_) => self.amount_before,
            }
        }
    }
}

/// The guard lets a transfer pass only if the balance moved by exactly the
/// amount: a transfer that was made, but moved more or less, is turned down
/// with `InvalidAmountTransferred`.
pub proof fn lemma_guard_is_exact(transfer: TokenTransfer, amount_after: u64)
    requires
        transfer.amount != 0,
    ensures
        transfer.verdict(Ok(amount_after)) is Ok <==> (amount_after - transfer.amount_before
            == transfer.amount || transfer.amount_before - amount_after == transfer.amount),
        transfer.verdict(Ok(amount_after)) is Err ==> transfer.verdict(Ok(amount_after)) == Err::<
            (),
            ErrorCode,
        >(ErrorCode::InvalidAmountTransferred),
{
}

} // verus!
