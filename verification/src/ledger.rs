//! The ledger's transfer rule, as far as the vault relies on it.
//!
//! The ledger is the system of record: it holds every balance and carries out
//! every transfer, all or nothing. This module states what one transfer
//! between an owner and that owner's vault does to the two balances, and when
//! the ledger turns it down. Whether a balance that remains may stay below the
//! minimum reserve is judged by the ledger when it commits, and is no part of
//! the rule here.

use vstd::prelude::*;
use crate::accounts::{Authority, OwnerAccount, Transfer, VaultAccount, VaultAction};

verus! {

/// Why the ledger turned a transfer down.
#[derive(Clone, Copy, Debug, PartialEq, Eq, Structural)]
pub enum LedgerError {
    /// The transfer names an address that is not a party to the operation.
    UnknownAccount,
    /// Value was to leave the vault on an authority that does not lead to it.
    Unauthorized,
    /// The sender holds less than the amount.
    InsufficientFunds,
    /// The receiver's balance would no longer fit its range.
    BalanceOverflow,
}

/// The balances of sender and receiver after `amount` has moved.
pub open spec fn moved(from: u64, to: u64, amount: u64) -> Result<(u64, u64), LedgerError> {
    if amount > from {
        Err(LedgerError::InsufficientFunds)
    } else if to + amount > u64::MAX {
        Err(LedgerError::BalanceOverflow)
    } else {
        Ok(((from - amount) as u64, (to + amount) as u64))
    }
}

/// The authority that releases value from the vault in `ctx`.
pub open spec fn vault_authority(ctx: VaultAction) -> Authority {
    Authority { owner: ctx.signer.identity, proof: ctx.vault.proof }
}

/// The accounts after the ledger has carried out `transfer`, or the reason
/// why it did not.
///
/// A transfer without authority is the owner's own: it must lead from the
/// owner to the vault. One with authority must lead from the vault to the
/// owner and present the owner and proof that the vault was derived with.
pub open spec fn settlement(ctx: VaultAction, transfer: Transfer) -> Result<VaultAction, LedgerError> {
    match transfer.authority {
        None => {
            if transfer.from == ctx.signer.identity && transfer.to == ctx.vault.address {
                match moved(ctx.signer.balance, ctx.vault.balance, transfer.amount) {
                    Ok((from, to)) => Ok(with_balances(ctx, from, to)),
                    Err(e) => Err(e),
                }
            } else {
                Err(LedgerError::UnknownAccount)
            }
        },
        Some(authority) => {
            if transfer.from == ctx.vault.address && transfer.to == ctx.signer.identity {
                if authority == vault_authority(ctx) {
                    match moved(ctx.vault.balance, ctx.signer.balance, transfer.amount) {
                        Ok((from, to)) => Ok(with_balances(ctx, to, from)),
                        Err(e) => Err(e),
                    }
                } else {
                    Err(LedgerError::Unauthorized)
                }
            } else {
                Err(LedgerError::UnknownAccount)
            }
        },
    }
}

/// The accounts of `ctx` with the owner's and the vault's balance replaced.
pub open spec fn with_balances(ctx: VaultAction, owner: u64, vault: u64) -> VaultAction {
    VaultAction {
        signer: OwnerAccount { identity: ctx.signer.identity, balance: owner },
        vault: VaultAccount { address: ctx.vault.address, balance: vault, proof: ctx.vault.proof },
    }
}

/// Moves `amount` from a balance of `from` to a balance of `to`.
pub fn move_balance(from: u64, to: u64, amount: u64) -> (balances: Result<(u64, u64), LedgerError>)
    ensures
        balances == moved(from, to, amount),
{
    if amount > from {
        Err(LedgerError::InsufficientFunds)
    } else if amount > u64::MAX - to {
        Err(LedgerError::BalanceOverflow)
    } else {
        Ok((from - amount, to + amount))
    }
}

impl VaultAction {
    /// Carries out `transfer` on the balances held here, all or nothing.
    pub fn settle(&mut self, transfer: &Transfer) -> (settled: Result<(), LedgerError>)
        ensures
            match settlement(*old(self), *transfer) {
                Ok(next) => settled is Ok && *final(self) == next,
                Err(e) => settled == Err::<(), LedgerError>(e) && *final(self) == *old(self),
            },
    {
        match transfer.authority {
            None => {
                if transfer.from.same_as(&self.signer.identity) && transfer.to.same_as(
                    &self.vault.address,
                ) {
                    match move_balance(self.signer.balance, self.vault.balance, transfer.amount) {
                        Ok((from, to)) => {
                            self.signer.balance = from;
                            self.vault.balance = to;
                            Ok(())
                        },
                        Err(e) => Err(e),
                    }
                } else {
                    Err(LedgerError::UnknownAccount)
                }
            },
            Some(authority) => {
                if transfer.from.same_as(&self.vault.address) && transfer.to.same_as(
                    &self.signer.identity,
                ) {
                    if authority.owner.same_as(&self.signer.identity) && authority.proof
                        == self.vault.proof {
                        match move_balance(self.vault.balance, self.signer.balance, transfer.amount) {
                            Ok((from, to)) => {
                                self.vault.balance = from;
                                self.signer.balance = to;
                                Ok(())
                            },
                            Err(e) => Err(e),
                        }
                    } else {
                        Err(LedgerError::Unauthorized)
                    }
                } else {
                    Err(LedgerError::UnknownAccount)
                }
            },
        }
    }
}

} // verus!
