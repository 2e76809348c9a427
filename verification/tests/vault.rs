use anchor_lang::prelude::Rent;
use blueshift_anchor_vault::derivation::VAULT_TAG;
use blueshift_anchor_vault::ledger::move_balance;
use blueshift_anchor_vault::vault::ERROR_CODE_OFFSET;
use blueshift_anchor_vault::{
    deposit, deposit_request, withdraw, withdraw_request, Address, Authority, Failure, LedgerError,
    OwnerAccount, Transfer, VaultAccount, VaultAction, VaultError,
};

const RESERVE: u64 = 890_000;

fn owner() -> Address {
    Address::new([7u8; 32])
}

fn accounts(owner_balance: u64, vault_balance: u64) -> VaultAction {
    let signer = OwnerAccount { identity: owner(), balance: owner_balance };
    let (address, _) = blueshift_anchor_vault::derivation::derive(&VAULT_TAG, &signer.identity).unwrap();
    VaultAction::new(signer, address, vault_balance).unwrap()
}

#[test]
fn end_to_end_scenario() {
    let mut ctx = accounts(5_000_000, 0);

    assert_eq!(deposit(&mut ctx, RESERVE, 1_000_000), Ok(()));
    assert_eq!(ctx.vault.balance, 1_000_000);
    assert_eq!(ctx.signer.balance, 4_000_000);

    assert_eq!(deposit(&mut ctx, RESERVE, 500), Err(Failure::Vault(VaultError::VaultAlreadyExists)));
    assert_eq!(ctx.vault.balance, 1_000_000);

    let before = ctx.signer.balance;
    assert_eq!(withdraw(&mut ctx, 400_000), Ok(()));
    assert_eq!(ctx.vault.balance, 600_000);
    assert_eq!(ctx.signer.balance, before + 400_000);

    let stand = ctx;
    assert_eq!(withdraw(&mut ctx, 700_000), Err(Failure::Ledger(LedgerError::InsufficientFunds)));
    assert_eq!(ctx, stand);
    assert_eq!(ctx.vault.balance, 600_000);
}

#[test]
fn deposit_at_or_below_the_reserve_is_invalid() {
    for amount in [0, 1, RESERVE - 1, RESERVE] {
        let mut ctx = accounts(5_000_000, 0);
        let before = ctx;
        assert_eq!(deposit(&mut ctx, RESERVE, amount), Err(Failure::Vault(VaultError::InvalidAmount)));
        assert_eq!(ctx, before);
        assert_eq!(deposit_request(&ctx, RESERVE, amount), Err(VaultError::InvalidAmount));
    }
}

#[test]
fn deposit_just_above_the_reserve_succeeds() {
    let mut ctx = accounts(5_000_000, 0);
    assert_eq!(deposit(&mut ctx, RESERVE, RESERVE + 1), Ok(()));
    assert_eq!(ctx.vault.balance, 890_001);
    assert_eq!(ctx.signer.balance, 4_109_999);
}

#[test]
fn deposit_with_a_zero_reserve() {
    let mut ctx = accounts(10, 0);
    assert_eq!(deposit(&mut ctx, 0, 0), Err(Failure::Vault(VaultError::InvalidAmount)));
    assert_eq!(deposit(&mut ctx, 0, 1), Ok(()));
    assert_eq!(ctx.vault.balance, 1);
    assert_eq!(ctx.signer.balance, 9);
}

#[test]
fn deposit_with_the_largest_reserve_is_always_invalid() {
    let mut ctx = accounts(u64::MAX, 0);
    let before = ctx;
    assert_eq!(deposit(&mut ctx, u64::MAX, u64::MAX), Err(Failure::Vault(VaultError::InvalidAmount)));
    assert_eq!(ctx, before);
}

#[test]
fn deposit_against_the_ledgers_own_reserve() {
    let reserve = Rent::default().minimum_balance(0);
    assert_eq!(reserve, 890_880);
    let mut ctx = accounts(5_000_000, 0);
    assert_eq!(deposit(&mut ctx, reserve, 890_880), Err(Failure::Vault(VaultError::InvalidAmount)));
    assert_eq!(deposit(&mut ctx, reserve, 890_881), Ok(()));
    assert_eq!(ctx.vault.balance, 890_881);
}

#[test]
fn deposit_into_a_funded_vault_is_refused() {
    for held in [1, 500, RESERVE, 1_000_000, u64::MAX] {
        for amount in [0, 500, RESERVE + 1, u64::MAX] {
            let mut ctx = accounts(5_000_000, held);
            let before = ctx;
            assert_eq!(
                deposit(&mut ctx, RESERVE, amount),
                Err(Failure::Vault(VaultError::VaultAlreadyExists))
            );
            assert_eq!(ctx, before);
            assert_eq!(deposit_request(&ctx, RESERVE, amount), Err(VaultError::VaultAlreadyExists));
        }
    }
}

#[test]
fn funded_vault_is_checked_before_the_amount() {
    let mut ctx = accounts(5_000_000, 1);
    assert_eq!(deposit(&mut ctx, RESERVE, 1), Err(Failure::Vault(VaultError::VaultAlreadyExists)));
}

#[test]
fn first_deposit_funds_the_vault_with_the_amount() {
    for amount in [RESERVE + 1, 1_000_000, 5_000_000] {
        let mut ctx = accounts(5_000_000, 0);
        let before = ctx;
        assert_eq!(deposit(&mut ctx, RESERVE, amount), Ok(()));
        assert_eq!(ctx.vault.balance, amount);
        assert_eq!(ctx.signer.balance, 5_000_000 - amount);
        assert_eq!(ctx.signer.identity, before.signer.identity);
        assert_eq!(ctx.vault.address, before.vault.address);
        assert_eq!(ctx.vault.proof, before.vault.proof);
    }
}

#[test]
fn deposit_beyond_the_owners_funds_fails_at_the_ledger() {
    let mut ctx = accounts(999_999, 0);
    let before = ctx;
    assert_eq!(
        deposit(&mut ctx, RESERVE, 1_000_000),
        Err(Failure::Ledger(LedgerError::InsufficientFunds))
    );
    assert_eq!(ctx, before);
}

#[test]
fn deposit_request_names_the_transfer() {
    let ctx = accounts(5_000_000, 0);
    let request = deposit_request(&ctx, RESERVE, 1_000_000).unwrap();
    assert_eq!(
        request,
        Transfer {
            from: ctx.signer.identity,
            to: ctx.vault.address,
            amount: 1_000_000,
            authority: None,
        }
    );
}

#[test]
fn withdraw_from_an_empty_vault_is_invalid() {
    for amount in [0, 1, 400_000, u64::MAX] {
        let mut ctx = accounts(5_000_000, 0);
        let before = ctx;
        assert_eq!(withdraw(&mut ctx, amount), Err(Failure::Vault(VaultError::InvalidAmount)));
        assert_eq!(ctx, before);
        assert_eq!(withdraw_request(&ctx, amount), Err(VaultError::InvalidAmount));
    }
}

#[test]
fn withdraw_within_the_balance_moves_the_amount() {
    for amount in [0, 1, 400_000, 999_999, 1_000_000] {
        let mut ctx = accounts(4_000_000, 1_000_000);
        assert_eq!(withdraw(&mut ctx, amount), Ok(()));
        assert_eq!(ctx.vault.balance, 1_000_000 - amount);
        assert_eq!(ctx.signer.balance, 4_000_000 + amount);
    }
}

#[test]
fn withdraw_beyond_the_balance_fails_at_the_ledger() {
    for amount in [1_000_001, 2_000_000, u64::MAX] {
        let mut ctx = accounts(4_000_000, 1_000_000);
        let before = ctx;
        assert_eq!(withdraw(&mut ctx, amount), Err(Failure::Ledger(LedgerError::InsufficientFunds)));
        assert_eq!(ctx, before);
    }
}

#[test]
fn withdraw_that_overflows_the_owner_fails_at_the_ledger() {
    let mut ctx = accounts(u64::MAX, 5);
    let before = ctx;
    assert_eq!(withdraw(&mut ctx, 1), Err(Failure::Ledger(LedgerError::BalanceOverflow)));
    assert_eq!(ctx, before);
    assert_eq!(withdraw(&mut ctx, 0), Ok(()));
    assert_eq!(ctx, before);
}

#[test]
fn withdraw_request_presents_the_derivation() {
    let ctx = accounts(4_000_000, 1_000_000);
    let request = withdraw_request(&ctx, 400_000).unwrap();
    assert_eq!(
        request,
        Transfer {
            from: ctx.vault.address,
            to: ctx.signer.identity,
            amount: 400_000,
            authority: Some(Authority { owner: ctx.signer.identity, proof: ctx.vault.proof }),
        }
    );
}

#[test]
fn repeated_partial_withdrawals_empty_the_vault() {
    let mut ctx = accounts(0, 1_000_000);
    assert_eq!(withdraw(&mut ctx, 250_000), Ok(()));
    assert_eq!(withdraw(&mut ctx, 250_000), Ok(()));
    assert_eq!(withdraw(&mut ctx, 500_000), Ok(()));
    assert_eq!(ctx.vault.balance, 0);
    assert_eq!(ctx.signer.balance, 1_000_000);
    assert_eq!(withdraw(&mut ctx, 1), Err(Failure::Vault(VaultError::InvalidAmount)));
}

#[test]
fn withdrawals_add_up() {
    let mut twice = accounts(10, 1_000_000);
    let mut once = twice;
    assert_eq!(withdraw(&mut twice, 300_000), Ok(()));
    assert_eq!(withdraw(&mut twice, 200_000), Ok(()));
    assert_eq!(withdraw(&mut once, 500_000), Ok(()));
    assert_eq!(twice, once);
}

#[test]
fn withdraw_undoes_deposit() {
    let mut ctx = accounts(5_000_000, 0);
    let before = ctx;
    assert_eq!(deposit(&mut ctx, RESERVE, 1_000_000), Ok(()));
    assert_eq!(withdraw(&mut ctx, 1_000_000), Ok(()));
    assert_eq!(ctx, before);
}

#[test]
fn funded_vault_refuses_deposit_even_after_partial_withdrawal() {
    let mut ctx = accounts(5_000_000, 0);
    assert_eq!(deposit(&mut ctx, RESERVE, 1_000_000), Ok(()));
    assert_eq!(withdraw(&mut ctx, 999_999), Ok(()));
    assert_eq!(ctx.vault.balance, 1);
    assert_eq!(
        deposit(&mut ctx, RESERVE, 2_000_000),
        Err(Failure::Vault(VaultError::VaultAlreadyExists))
    );
    assert_eq!(withdraw(&mut ctx, 1), Ok(()));
    assert_eq!(deposit(&mut ctx, RESERVE, 2_000_000), Ok(()));
    assert_eq!(ctx.vault.balance, 2_000_000);
}

#[test]
fn settle_carries_out_a_request() {
    let mut ctx = accounts(5_000_000, 0);
    let request = deposit_request(&ctx, RESERVE, 1_000_000).unwrap();
    assert_eq!(ctx.settle(&request), Ok(()));
    assert_eq!(ctx.vault.balance, 1_000_000);
    assert_eq!(ctx.signer.balance, 4_000_000);
    let request = withdraw_request(&ctx, 1_000_000).unwrap();
    assert_eq!(ctx.settle(&request), Ok(()));
    assert_eq!(ctx.vault.balance, 0);
    assert_eq!(ctx.signer.balance, 5_000_000);
}

#[test]
fn settle_refuses_a_wrong_authority() {
    let mut ctx = accounts(0, 1_000_000);
    let before = ctx;
    let mut request = withdraw_request(&ctx, 1).unwrap();
    request.authority = Some(Authority {
        owner: ctx.signer.identity,
        proof: ctx.vault.proof.wrapping_sub(1),
    });
    assert_eq!(ctx.settle(&request), Err(LedgerError::Unauthorized));
    request.authority = Some(Authority { owner: Address::new([8u8; 32]), proof: ctx.vault.proof });
    assert_eq!(ctx.settle(&request), Err(LedgerError::Unauthorized));
    assert_eq!(ctx, before);
}

#[test]
fn settle_refuses_a_release_without_authority() {
    let mut ctx = accounts(0, 1_000_000);
    let before = ctx;
    let mut request = withdraw_request(&ctx, 1).unwrap();
    request.authority = None;
    assert_eq!(ctx.settle(&request), Err(LedgerError::UnknownAccount));
    assert_eq!(ctx, before);
}

#[test]
fn settle_refuses_a_stranger() {
    let mut ctx = accounts(5_000_000, 0);
    let before = ctx;
    let mut request = deposit_request(&ctx, RESERVE, 1_000_000).unwrap();
    request.to = Address::new([9u8; 32]);
    assert_eq!(ctx.settle(&request), Err(LedgerError::UnknownAccount));
    let mut request = deposit_request(&ctx, RESERVE, 1_000_000).unwrap();
    request.from = Address::new([9u8; 32]);
    assert_eq!(ctx.settle(&request), Err(LedgerError::UnknownAccount));
    let mut request = withdraw_request(&accounts(0, 5), 1).unwrap();
    request.to = Address::new([9u8; 32]);
    assert_eq!(ctx.settle(&request), Err(LedgerError::UnknownAccount));
    assert_eq!(ctx, before);
}

#[test]
fn move_balance_debits_and_credits() {
    assert_eq!(move_balance(10, 3, 4), Ok((6, 7)));
    assert_eq!(move_balance(10, 3, 10), Ok((0, 13)));
    assert_eq!(move_balance(10, 3, 0), Ok((10, 3)));
    assert_eq!(move_balance(10, 3, 11), Err(LedgerError::InsufficientFunds));
    assert_eq!(move_balance(10, u64::MAX - 3, 4), Err(LedgerError::BalanceOverflow));
    assert_eq!(move_balance(10, u64::MAX - 4, 4), Ok((6, u64::MAX)));
    assert_eq!(move_balance(0, u64::MAX, 1), Err(LedgerError::InsufficientFunds));
}

#[test]
fn errors_carry_their_code_and_message() {
    assert_eq!(ERROR_CODE_OFFSET, 6000);
    assert_eq!(ERROR_CODE_OFFSET, anchor_lang::error::ERROR_CODE_OFFSET);
    assert_eq!(VaultError::VaultAlreadyExists.code(), 6000);
    assert_eq!(VaultError::InvalidAmount.code(), 6001);
    assert_eq!(VaultError::VaultAlreadyExists.message(), "Vault already exists");
    assert_eq!(VaultError::InvalidAmount.message(), "Invalid amount");
}

#[test]
fn vault_account_is_a_plain_value() {
    let ctx = accounts(1, 2);
    let copy = VaultAccount { address: ctx.vault.address, balance: 2, proof: ctx.vault.proof };
    assert_eq!(ctx.vault, copy);
}
