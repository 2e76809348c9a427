//! Rules of a custodial value vault: one holding account per owner, found by
//! derivation from the owner's identity and controlled by the proof that the
//! derivation yields instead of a private key.

pub mod address;
pub mod derivation;
pub mod accounts;
pub mod ledger;
pub mod vault;

pub use crate::address::Address;
pub use crate::accounts::{Authority, OwnerAccount, Transfer, VaultAccount, VaultAction};
pub use crate::ledger::LedgerError;
pub use crate::vault::{deposit, deposit_request, withdraw, withdraw_request, Failure, VaultError};
