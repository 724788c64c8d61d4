//! Account addresses, and the seeded derivation that ties a custody account
//! to its owner.
use vstd::prelude::*;
use crate::error::VaultError;
use vstd::utf8::encode_utf8;
use solana_program::pubkey::{Pubkey, PubkeyError};

verus! {

/// Byte length of an account address.
pub const PUBKEY_LEN: usize = 32;

/// Longest seed, in bytes, that a seeded derivation accepts.
pub const MAX_SEED_LEN: usize = 32;

/// `b"ProgramDerivedAddress"`: an owner whose address ends in these bytes
/// cannot be used in a seeded derivation.
pub open spec fn pda_marker() -> Seq<u8> {
    seq![
        80u8, 114, 111, 103, 114, 97, 109, 68, 101, 114, 105, 118, 101, 100, 65, 100, 100, 114,
        101, 115, 115,
    ]
}

pub open spec fn ends_with_pda_marker(k: Seq<u8>) -> bool {
    k.len() >= 21 && k.subrange(k.len() - 21, k.len() as int) == pda_marker()
}

/// The address that the runtime derives from a base address, a seed and an
/// owner program (a SHA-256 digest of the three, concatenated).
pub uninterp spec fn seeded_address(base: Seq<u8>, seed: Seq<u8>, owner: Seq<u8>) -> Seq<u8>;

/// What a seeded derivation gives, or why it is refused.
pub open spec fn seed_derivation(base: Seq<u8>, seed: Seq<u8>, owner: Seq<u8>) -> Result<Seq<u8>, VaultError> {
    if seed.len() > MAX_SEED_LEN {
        Err(VaultError::MaxSeedLengthExceeded)
    } else if ends_with_pda_marker(owner) {
        Err(VaultError::IllegalOwner)
    } else {
        Ok(seeded_address(base, seed, owner))
    }
}

pub open spec fn key_refused(e: VaultError) -> Result<[u8; 32], VaultError> {
    Err(e)
}

/// Relies on `Pubkey::create_with_seed`: it refuses a seed of more than
/// `MAX_SEED_LEN` bytes, then an owner that ends in the PDA marker, and
/// otherwise returns the digest of base, seed and owner.
#[verifier::external_body]
pub(crate) fn derive_custody_address(base: &[u8; 32], seed: &str, owner: &[u8; 32]) -> (r: Result<[u8; 32], VaultError>)
    ensures
        encode_utf8(seed@).len() > MAX_SEED_LEN ==> r == key_refused(VaultError::MaxSeedLengthExceeded),
        encode_utf8(seed@).len() <= MAX_SEED_LEN && ends_with_pda_marker(owner@) ==> r == key_refused(VaultError::IllegalOwner),
        encode_utf8(seed@).len() <= MAX_SEED_LEN && !ends_with_pda_marker(owner@) ==> r is Ok && r->Ok_0@ == seeded_address(base@, encode_utf8(seed@), owner@),
{
    let base = Pubkey::new_from_array(*base);
    let owner = Pubkey::new_from_array(*owner);
    match Pubkey::create_with_seed(&base, seed, &owner) {
        Ok(k) => Ok(k.to_bytes()),
        Err(PubkeyError::MaxSeedLengthExceeded) => Err(VaultError::MaxSeedLengthExceeded),
        Err(PubkeyError::InvalidSeeds) => Err(VaultError::InvalidSeeds),
        Err(PubkeyError::IllegalOwner) => Err(VaultError::IllegalOwner),
    }
}

/// Whether two addresses are the same.
pub fn same_key(a: &[u8; 32], b: &[u8; 32]) -> (r: bool)
    ensures
        r == (a@ == b@),
{
    broadcast use vstd::array::group_array_axioms;
    let mut i: usize = 0;
    while i < PUBKEY_LEN
        invariant
            i <= PUBKEY_LEN,
            a@.len() == 32,
            b@.len() == 32,
            forall|j: int| 0 <= j < i ==> a@[j] == b@[j],
        decreases PUBKEY_LEN - i,
    {
        if a[i] != b[i] {
            return false;
        }
        i += 1;
    }
    assert(a@ =~= b@);
    true
}

} // verus!
