//! The accounts that one vault operation acts on, and the transfer requests
//! that it hands to the ledger.

use vstd::prelude::*;
use crate::address::Address;
use crate::derivation::{derivation, VAULT_TAG};

verus! {

/// The controlling party of a vault, with the balance that the ledger holds
/// for it.
#[derive(Clone, Copy, Debug, PartialEq, Eq)]
pub struct OwnerAccount {
    pub identity: Address,
    pub balance: u64,
}

/// The holding account derived for one owner.
#[derive(Clone, Copy, Debug, PartialEq, Eq)]
pub struct VaultAccount {
    /// Where the vault lives: the address derived from the owner's identity.
    pub address: Address,
    /// What the ledger holds at that address. Zero means that the vault has
    /// not been funded, or has been emptied again.
    pub balance: u64,
    /// The value that the derivation produced beside the address.
    pub proof: u8,
}

/// Everything a deposit or a withdrawal touches: the owner who asks for it and
/// the vault derived for that owner.
#[derive(Clone, Copy, Debug, PartialEq, Eq)]
pub struct VaultAction {
    pub signer: OwnerAccount,
    pub vault: VaultAccount,
}

/// What the program presents in the vault's stead when value leaves it: the
/// owner whose vault it is and the proof from the derivation. Together with
/// the domain tag these are the seeds that lead back to the vault's address.
#[derive(Clone, Copy, Debug, PartialEq, Eq)]
pub struct Authority {
    pub owner: Address,
    pub proof: u8,
}

/// A request to the ledger to move `amount` from one address to another.
/// `authority` is absent where the sender authorises the transfer itself, and
/// present where the program does so for an address it derived.
#[derive(Clone, Copy, Debug, PartialEq, Eq)]
pub struct Transfer {
    pub from: Address,
    pub to: Address,
    pub amount: u64,
    pub authority: Option<Authority>,
}

/// The accounts of an operation, where `derived` names the address presented
/// for the vault; nothing where the derivation found no address or found
/// another one.
pub open spec fn bound(
    signer: OwnerAccount,
    presented: Address,
    balance: u64,
    derived: Option<(Address, u8)>,
) -> Option<VaultAction> {
    match derived {
        Some((address, proof)) if address == presented => Some(
            VaultAction { signer, vault: VaultAccount { address, balance, proof } },
        ),
        _ => None,
    }
}

impl Authority {
    /// The seeds that the ledger hashes to check the authority: the domain
    /// tag, the owner's identity and the proof as a single byte.
    pub open spec fn seeds_spec(self) -> Seq<Seq<u8>> {
        seq![VAULT_TAG@, self.owner@, seq![self.proof]]
    }

    /// The seeds in the form in which they accompany a transfer request.
    pub fn seeds(&self) -> (seeds: Vec<Vec<u8>>)
        ensures
            seeds.deep_view() == self.seeds_spec(),
    {
        let mut tag: Vec<u8> = Vec::new();
        let mut i: usize = 0;
        while i < 5
            invariant
                0 <= i <= 5,
                tag@ == VAULT_TAG@.take(i as int),
            decreases 5 - i,
        {
            tag.push(VAULT_TAG[i]);
            assert(VAULT_TAG@.take(i + 1) =~= VAULT_TAG@.take(i as int).push(VAULT_TAG@[i as int]));
            i += 1;
        }
        assert(VAULT_TAG@.take(5) =~= VAULT_TAG@);
        let mut owner: Vec<u8> = Vec::new();
        let mut j: usize = 0;
        while j < 32
            invariant
                0 <= j <= 32,
                owner@ == self.owner@.take(j as int),
            decreases 32 - j,
        {
            owner.push(self.owner.bytes[j]);
            assert(self.owner@.take(j + 1) =~= self.owner@.take(j as int).push(self.owner@[j as int]));
            j += 1;
        }
        assert(self.owner@.take(32) =~= self.owner@);
        let mut proof: Vec<u8> = Vec::new();
        proof.push(self.proof);
        assert(proof@ =~= seq![self.proof]);
        let mut seeds: Vec<Vec<u8>> = Vec::new();
        seeds.push(tag);
        seeds.push(owner);
        seeds.push(proof);
        assert(seeds@[0].deep_view() =~= VAULT_TAG@);
        assert(seeds@[1].deep_view() =~= self.owner@);
        assert(seeds@[2].deep_view() =~= seq![self.proof]);
        assert(seeds.deep_view() =~= self.seeds_spec());
        seeds
    }
}

impl VaultAction {
    /// Whether the vault is the one that derivation gives the signer, with
    /// the proof that came with it.
    pub open spec fn is_derived(self) -> bool {
        derivation(VAULT_TAG@, self.signer.identity) == Some((self.vault.address, self.vault.proof))
    }

    /// Binds the accounts of an operation once the derivation has answered.
    /// `presented` is the address that the caller names as the vault; it is
    /// accepted only where `derived` holds that very address, and the proof
    /// is taken from `derived`, never from the caller.
    pub fn bind(
        signer: OwnerAccount,
        presented: Address,
        balance: u64,
        derived: Option<(Address, u8)>,
    ) -> (accounts: Option<VaultAction>)
        ensures
            accounts == bound(signer, presented, balance, derived),
            accounts is Some <==> (derived matches Some(found) && found.0 == presented),
    {
        match derived {
            Some((address, proof)) => {
                if address.same_as(&presented) {
                    Some(VaultAction { signer, vault: VaultAccount { address, balance, proof } })
                } else {
                    None
                }
            },
            None => None,
        }
    }

    /// Recomputes the vault address of `signer` and binds the accounts of an
    /// operation to it. `presented` and `balance` are the address that the
    /// caller names as the vault and what the ledger holds there.
    pub fn new(signer: OwnerAccount, presented: Address, balance: u64) -> (accounts: Option<
        VaultAction,
    >)
        ensures
            accounts == bound(signer, presented, balance, derivation(VAULT_TAG@, signer.identity)),
            accounts is Some <==> (derivation(VAULT_TAG@, signer.identity) matches Some(found)
                && found.0 == presented),
            accounts is Some ==> accounts->0.is_derived(),
    {
        let derived = crate::derivation::derive(&VAULT_TAG, &signer.identity);
        VaultAction::bind(signer, presented, balance, derived)
    }
}

/// An owner has exactly one valid vault: two sets of accounts that both hold
/// a derived vault for the same owner name the same address and proof.
pub proof fn lemma_one_vault_per_owner(a: VaultAction, b: VaultAction)
    ensures
        a.is_derived() && b.is_derived() && a.signer.identity == b.signer.identity ==> a.vault.address
            == b.vault.address && a.vault.proof == b.vault.proof,
{
}

} // verus!
