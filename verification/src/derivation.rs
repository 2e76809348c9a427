//! Address derivation: from a domain tag and an owner's identity to the one
//! address that this program controls for that owner.

use vstd::prelude::*;
use anchor_lang::prelude::Pubkey;
use crate::address::Address;

verus! {

/// The longest seed that the address search admits, in bytes.
pub const MAX_SEED_LEN: usize = 32;

/// What `Pubkey::try_find_program_address` finds for the seeds `tag` and
/// `owner` under the program `program`: the address off the signature curve
/// and the bump seed that led to it, or nothing.
pub uninterp spec fn program_address(tag: Seq<u8>, owner: Seq<u8>, program: Seq<u8>) -> Option<([u8; 32], u8)>;

/// Calls `Pubkey::try_find_program_address` with the two seeds `tag` and
/// `owner` and the program id `program`. The search hashes the seeds, the
/// program id and one more seed byte tried from 255 downwards, and depends on
/// nothing else, so its outcome is named by [`program_address`]. It gives up at
/// once on a seed longer than [`MAX_SEED_LEN`] bytes.
#[verifier::external_body]
fn find_program_address(tag: &[u8], owner: &[u8; 32], program: &[u8; 32]) -> (found: Option<([u8; 32], u8)>)
    ensures
        found == program_address(tag@, owner@, program@),
        tag@.len() > MAX_SEED_LEN ==> found is None,
{
    let program_id = Pubkey::new_from_array(*program);
    match Pubkey::try_find_program_address(&[tag, &owner[..]], &program_id) {
        Some((address, bump)) => Some((address.to_bytes(), bump)),
        None => None,
    }
}

/// The domain tag of every vault address: the ASCII bytes of `vault`.
pub const VAULT_TAG: [u8; 5] = [118, 97, 117, 108, 116];

/// The identity under which this program is deployed. Every vault address is
/// derived under it, so no other program can present a proof for one.
pub const PROGRAM_ID: [u8; 32] = [
    185, 184, 143, 129, 238, 122, 88, 131, 189, 172, 31, 53, 139, 177, 67, 22,
    221, 213, 169, 123, 48, 151, 253, 138, 214, 62, 97, 125, 101, 229, 1, 53,
];

/// The address and authority proof that belong to `owner` under the domain
/// tag `tag`, where the search finds one.
pub open spec fn derivation(tag: Seq<u8>, owner: Address) -> Option<(Address, u8)> {
    match program_address(tag, owner@, PROGRAM_ID@) {
        Some((bytes, proof)) => Some((Address { bytes }, proof)),
        None => None,
    }
}

/// Derives the address that this program holds for `owner` under
/// `domain_tag`, together with the proof that the address came from this
/// derivation. The outcome depends on the two arguments alone. A tag longer
/// than [`MAX_SEED_LEN`] bytes has no address.
pub fn derive(domain_tag: &[u8], owner: &Address) -> (derived: Option<(Address, u8)>)
    ensures
        derived == derivation(domain_tag@, *owner),
        domain_tag@.len() > MAX_SEED_LEN ==> derived is None,
{
    match find_program_address(domain_tag, &owner.bytes, &PROGRAM_ID) {
        Some((bytes, proof)) => Some((Address { bytes }, proof)),
        None => None,
    }
}

/// Derivation is a function: the same tag and owner always have the same
/// address and proof, so an owner has at most one vault under a tag.
pub proof fn lemma_derivation_is_deterministic(tag_a: Seq<u8>, owner_a: Address, tag_b: Seq<u8>, owner_b: Address)
    requires
        tag_a == tag_b,
        owner_a@ == owner_b@,
    ensures
        derivation(tag_a, owner_a) == derivation(tag_b, owner_b),
{
}

} // verus!
