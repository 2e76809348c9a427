//! The vault program: deposit and withdrawal with their checks.

use vstd::prelude::*;
use crate::accounts::{Authority, Transfer, VaultAction};
use crate::ledger::{settlement, vault_authority, with_balances, LedgerError};

verus! {

/// Why the vault itself refused an operation.
#[derive(Clone, Copy, Debug, PartialEq, Eq, Structural)]
pub enum VaultError {
    /// A deposit was made to a vault that already holds value.
    VaultAlreadyExists,
    /// A deposit did not exceed the minimum reserve, or a withdrawal was made
    /// from an empty vault.
    InvalidAmount,
}

/// Why an operation did not complete: the vault's own refusal, or the
/// ledger's, handed on as it came.
#[derive(Clone, Copy, Debug, PartialEq, Eq, Structural)]
pub enum Failure {
    Vault(VaultError),
    Ledger(LedgerError),
}

/// The first error number of a program's own errors.
pub const ERROR_CODE_OFFSET: u32 = 6000;

impl VaultError {
    /// The number under which the error is reported.
    pub fn code(&self) -> (code: u32)
        ensures
            code == ERROR_CODE_OFFSET + match *self {
                VaultError::VaultAlreadyExists => 0int,
                VaultError::InvalidAmount => 1int,
            },
    {
        match self {
            VaultError::VaultAlreadyExists => ERROR_CODE_OFFSET,
            VaultError::InvalidAmount => ERROR_CODE_OFFSET + 1,
        }
    }

    /// The message that goes with the error.
    pub fn message(&self) -> (message: &'static str)
        ensures
            message@ == match *self {
                VaultError::VaultAlreadyExists => "Vault already exists"@,
                VaultError::InvalidAmount => "Invalid amount"@,
            },
    {
        match self {
            VaultError::VaultAlreadyExists => "Vault already exists",
            VaultError::InvalidAmount => "Invalid amount",
        }
    }
}

/// The transfer that funds the vault in `ctx` with `amount`: from the owner
/// to the vault, on the owner's own authority.
pub open spec fn funding(ctx: VaultAction, amount: u64) -> Transfer {
    Transfer { from: ctx.signer.identity, to: ctx.vault.address, amount, authority: None }
}

/// The transfer that releases `amount` from the vault in `ctx`: from the
/// vault to the owner, on the authority of the vault's derivation.
pub open spec fn release(ctx: VaultAction, amount: u64) -> Transfer {
    Transfer {
        from: ctx.vault.address,
        to: ctx.signer.identity,
        amount,
        authority: Some(vault_authority(ctx)),
    }
}

/// What a deposit of `amount` asks of the ledger, or why the vault refuses
/// it. The vault's balance is looked at first, the amount second.
pub open spec fn deposit_decision(ctx: VaultAction, minimum_reserve: u64, amount: u64) -> Result<
    Transfer,
    VaultError,
> {
    if ctx.vault.balance != 0 {
        Err(VaultError::VaultAlreadyExists)
    } else if amount <= minimum_reserve {
        Err(VaultError::InvalidAmount)
    } else {
        Ok(funding(ctx, amount))
    }
}

/// What a withdrawal of `amount` asks of the ledger, or why the vault
/// refuses it.
pub open spec fn withdraw_decision(ctx: VaultAction, amount: u64) -> Result<Transfer, VaultError> {
    if ctx.vault.balance == 0 {
        Err(VaultError::InvalidAmount)
    } else {
        Ok(release(ctx, amount))
    }
}

/// How an operation ends once the vault has decided and, where it asked for
/// a transfer, the ledger has answered: the result, and the accounts as they
/// then stand. Any failure leaves the accounts as they were.
pub open spec fn carried_out(ctx: VaultAction, decision: Result<Transfer, VaultError>) -> (
    Result<(), Failure>,
    VaultAction,
) {
    match decision {
        Err(e) => (Err(Failure::Vault(e)), ctx),
        Ok(transfer) => match settlement(ctx, transfer) {
            Ok(next) => (Ok(()), next),
            Err(e) => (Err(Failure::Ledger(e)), ctx),
        },
    }
}

/// Result and accounts after a deposit of `amount`.
pub open spec fn deposit_effect(ctx: VaultAction, minimum_reserve: u64, amount: u64) -> (
    Result<(), Failure>,
    VaultAction,
) {
    carried_out(ctx, deposit_decision(ctx, minimum_reserve, amount))
}

/// Result and accounts after a withdrawal of `amount`.
pub open spec fn withdraw_effect(ctx: VaultAction, amount: u64) -> (Result<(), Failure>, VaultAction) {
    carried_out(ctx, withdraw_decision(ctx, amount))
}

/// Checks a deposit of `amount` and names the transfer that carries it out.
///
/// The vault must hold nothing, and `amount` must exceed `minimum_reserve`,
/// the smallest balance that the ledger lets an account keep. Nothing is
/// moved here: the request is for the ledger.
pub fn deposit_request(ctx: &VaultAction, minimum_reserve: u64, amount: u64) -> (request: Result<
    Transfer,
    VaultError,
>)
    ensures
        request == deposit_decision(*ctx, minimum_reserve, amount),
        ctx.vault.balance != 0 <==> request == Err::<Transfer, VaultError>(
            VaultError::VaultAlreadyExists,
        ),
        ctx.vault.balance == 0 && amount <= minimum_reserve <==> request == Err::<
            Transfer,
            VaultError,
        >(VaultError::InvalidAmount),
        ctx.vault.balance == 0 && amount > minimum_reserve <==> request == Ok::<
            Transfer,
            VaultError,
        >(funding(*ctx, amount)),
{
    if ctx.vault.balance != 0 {
        return Err(VaultError::VaultAlreadyExists);
    }
    if amount <= minimum_reserve {
        return Err(VaultError::InvalidAmount);
    }
    Ok(Transfer { from: ctx.signer.identity, to: ctx.vault.address, amount, authority: None })
}

/// Checks a withdrawal of `amount` and names the transfer that carries it
/// out, with the authority that stands in for the vault's signature.
///
/// The vault must hold something. Whether it holds `amount`, and whether
/// what remains may stay, is for the ledger to say.
pub fn withdraw_request(ctx: &VaultAction, amount: u64) -> (request: Result<Transfer, VaultError>)
    ensures
        request == withdraw_decision(*ctx, amount),
        ctx.vault.balance == 0 <==> request == Err::<Transfer, VaultError>(
            VaultError::InvalidAmount,
        ),
        ctx.vault.balance != 0 <==> request == Ok::<Transfer, VaultError>(release(*ctx, amount)),
{
    if ctx.vault.balance == 0 {
        return Err(VaultError::InvalidAmount);
    }
    Ok(
        Transfer {
            from: ctx.vault.address,
            to: ctx.signer.identity,
            amount,
            authority: Some(Authority { owner: ctx.signer.identity, proof: ctx.vault.proof }),
        },
    )
}

/// Hands the transfer of a decision to the ledger's rule and reports how the
/// operation ended.
fn carry_out(ctx: &mut VaultAction, decision: Result<Transfer, VaultError>) -> (outcome: Result<
    (),
    Failure,
>)
    ensures
        (outcome, *final(ctx)) == carried_out(*old(ctx), decision),
{
    match decision {
        Err(e) => Err(Failure::Vault(e)),
        Ok(transfer) => match ctx.settle(&transfer) {
            Ok(()) => Ok(()),
            Err(e) => Err(Failure::Ledger(e)),
        },
    }
}

/// Deposits `amount` from the owner into the owner's vault.
///
/// The deposit is refused with `VaultAlreadyExists` where the vault holds
/// anything, and otherwise with `InvalidAmount` where `amount` does not exceed
/// `minimum_reserve`. Past both checks the ledger moves `amount` from the
/// owner to the vault, which then holds exactly `amount`; it fails only where
/// the owner holds less. Whatever fails, the accounts stay as they were.
pub fn deposit(ctx: &mut VaultAction, minimum_reserve: u64, amount: u64) -> (outcome: Result<
    (),
    Failure,
>)
    ensures
        (outcome, *final(ctx)) == deposit_effect(*old(ctx), minimum_reserve, amount),
        old(ctx).vault.balance != 0 <==> outcome == Err::<(), Failure>(
            Failure::Vault(VaultError::VaultAlreadyExists),
        ),
        old(ctx).vault.balance == 0 && amount <= minimum_reserve <==> outcome == Err::<
            (),
            Failure,
        >(Failure::Vault(VaultError::InvalidAmount)),
        old(ctx).vault.balance == 0 && minimum_reserve < amount && old(ctx).signer.balance < amount
            <==> outcome == Err::<(), Failure>(Failure::Ledger(LedgerError::InsufficientFunds)),
        old(ctx).vault.balance == 0 && minimum_reserve < amount <= old(ctx).signer.balance
            <==> outcome is Ok,
        outcome is Err ==> *final(ctx) == *old(ctx),
        outcome is Ok ==> final(ctx).vault.balance == amount,
        outcome is Ok ==> final(ctx).signer.balance == old(ctx).signer.balance - amount,
        outcome is Ok ==> *final(ctx) == with_balances(
            *old(ctx),
            (old(ctx).signer.balance - amount) as u64,
            amount,
        ),
{
    let decision = deposit_request(ctx, minimum_reserve, amount);
    carry_out(ctx, decision)
}

/// Withdraws `amount` from the owner's vault to the owner.
///
/// The withdrawal is refused with `InvalidAmount` where the vault holds
/// nothing. Otherwise the ledger moves `amount` from the vault to the owner on
/// the authority of the vault's derivation: the vault then holds `amount`
/// less and the owner `amount` more. The ledger fails where the vault holds
/// less than `amount`, or the owner's balance would leave its range. Whatever
/// fails, the accounts stay as they were.
pub fn withdraw(ctx: &mut VaultAction, amount: u64) -> (outcome: Result<(), Failure>)
    ensures
        (outcome, *final(ctx)) == withdraw_effect(*old(ctx), amount),
        old(ctx).vault.balance == 0 <==> outcome == Err::<(), Failure>(
            Failure::Vault(VaultError::InvalidAmount),
        ),
        0 < old(ctx).vault.balance < amount <==> outcome == Err::<(), Failure>(
            Failure::Ledger(LedgerError::InsufficientFunds),
        ),
        0 < old(ctx).vault.balance && amount <= old(ctx).vault.balance && old(ctx).signer.balance
            + amount > u64::MAX <==> outcome == Err::<(), Failure>(
            Failure::Ledger(LedgerError::BalanceOverflow),
        ),
        0 < old(ctx).vault.balance && amount <= old(ctx).vault.balance && old(ctx).signer.balance
            + amount <= u64::MAX <==> outcome is Ok,
        outcome is Err ==> *final(ctx) == *old(ctx),
        outcome is Ok ==> final(ctx).vault.balance == old(ctx).vault.balance - amount,
        outcome is Ok ==> final(ctx).signer.balance == old(ctx).signer.balance + amount,
        outcome is Ok ==> *final(ctx) == with_balances(
            *old(ctx),
            (old(ctx).signer.balance + amount) as u64,
            (old(ctx).vault.balance - amount) as u64,
        ),
{
    let decision = withdraw_request(ctx, amount);
    carry_out(ctx, decision)
}

/// A vault is funded once: after a deposit has succeeded, every further
/// deposit is refused with `VaultAlreadyExists`, whatever its amount and
/// whatever the reserve then is, and changes nothing.
pub proof fn lemma_funded_vault_refuses_deposit(
    ctx: VaultAction,
    minimum_reserve: u64,
    amount: u64,
    later_reserve: u64,
    later_amount: u64,
)
    requires
        deposit_effect(ctx, minimum_reserve, amount).0 is Ok,
    ensures
        deposit_effect(deposit_effect(ctx, minimum_reserve, amount).1, later_reserve, later_amount)
            == (
            Err::<(), Failure>(Failure::Vault(VaultError::VaultAlreadyExists)),
            deposit_effect(ctx, minimum_reserve, amount).1,
        ),
{
}

/// What a deposit put in can be taken out again: withdrawing the deposited
/// amount right after a successful deposit succeeds and leaves owner and
/// vault as they were before the deposit.
pub proof fn lemma_withdraw_undoes_deposit(ctx: VaultAction, minimum_reserve: u64, amount: u64)
    requires
        deposit_effect(ctx, minimum_reserve, amount).0 is Ok,
    ensures
        withdraw_effect(deposit_effect(ctx, minimum_reserve, amount).1, amount) == (
            Ok::<(), Failure>(()),
            ctx,
        ),
{
}

/// Withdrawals add up: where the vault still holds something after a first
/// withdrawal, a second one succeeds or fails as a single withdrawal of both
/// amounts would have, provided that the sum is a valid amount; and where it
/// succeeds, the accounts are those that the single withdrawal would have
/// left.
pub proof fn lemma_withdrawals_add_up(ctx: VaultAction, first: u64, second: u64)
    requires
        withdraw_effect(ctx, first).0 is Ok,
        withdraw_effect(ctx, first).1.vault.balance != 0,
        first + second <= u64::MAX,
    ensures
        withdraw_effect(withdraw_effect(ctx, first).1, second).0 == withdraw_effect(
            ctx,
            (first + second) as u64,
        ).0,
        withdraw_effect(withdraw_effect(ctx, first).1, second).0 is Ok ==> withdraw_effect(
            withdraw_effect(ctx, first).1,
            second,
        ).1 == withdraw_effect(ctx, (first + second) as u64).1,
{
}

} // verus!
