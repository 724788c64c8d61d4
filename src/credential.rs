//! The credential that lets a caller drain a custody account: a token
//! account of a given mint, holding enough tokens, that the caller owns.
use vstd::prelude::*;
use crate::codec::le_u64;
use crate::error::VaultError;
use crate::guard::{signer, signer_check, AccountView};
use crate::key::same_key;
use solana_program::program_error::ProgramError;
use solana_program::program_pack::Pack;

verus! {

/// Byte length of a token account record.
pub const TOKEN_ACCOUNT_LEN: usize = 165;

/// Which mint a credential must be of, and how many tokens it must hold.
pub struct CredentialConfig {
    pub mint: [u8; 32],
    pub min_amount: u64,
}

/// The fields of a token account record that the credential check reads.
pub struct TokenRecord {
    pub mint: [u8; 32],
    pub owner: [u8; 32],
    pub amount: u64,
}

/// A four-byte option tag at `at`: `[0, 0, 0, 0]` or `[1, 0, 0, 0]`.
pub open spec fn option_tag_ok(d: Seq<u8>, at: int) -> bool {
    (d[at] == 0 || d[at] == 1) && d[at + 1] == 0 && d[at + 2] == 0 && d[at + 3] == 0
}

/// Offset of the state byte in a token account record.
pub open spec fn state_at() -> int {
    108
}

/// A token account record: mint (32 bytes), owner (32), amount (8),
/// optional delegate (4 + 32), state (1), optional native reserve (4 + 8),
/// delegated amount (8), optional close authority (4 + 32).
pub open spec fn token_layout_ok(d: Seq<u8>) -> bool {
    &&& d.len() == TOKEN_ACCOUNT_LEN
    &&& option_tag_ok(d, 72)
    &&& d[state_at()] <= 2
    &&& option_tag_ok(d, 109)
    &&& option_tag_ok(d, 129)
}

pub open spec fn token_mint(d: Seq<u8>) -> Seq<u8> {
    d.subrange(0, 32)
}

pub open spec fn token_owner(d: Seq<u8>) -> Seq<u8> {
    d.subrange(32, 64)
}

pub open spec fn token_amount(d: Seq<u8>) -> int {
    le_u64(d, 64)
}

/// Outcome of the credential check of `claimant` against the record `d`:
/// the record must decode and be initialized, then the mint is checked,
/// then the balance, then the owner.
pub open spec fn credential_check(claimant: Seq<u8>, d: Seq<u8>, config: CredentialConfig) -> Result<(), VaultError> {
    if !token_layout_ok(d) {
        Err(VaultError::InvalidAccountData)
    } else if d[state_at()] == 0 {
        Err(VaultError::UninitializedAccount)
    } else if token_mint(d) != config.mint@ {
        Err(VaultError::WrongMint)
    } else if token_amount(d) < config.min_amount {
        Err(VaultError::InsufficientCredentialBalance)
    } else if token_owner(d) != claimant {
        Err(VaultError::NotCredentialOwner)
    } else {
        Ok(())
    }
}

pub open spec fn record_refused(e: VaultError) -> Result<TokenRecord, VaultError> {
    Err(e)
}

/// Relies on spl-token's `Account::unpack`: a record of the wrong length or
/// with a bad option tag or state byte is invalid data, one whose state is
/// zero is uninitialized; otherwise mint, owner and amount are read from
/// their offsets.
#[verifier::external_body]
fn unpack_token_account(data: &[u8]) -> (r: Result<TokenRecord, VaultError>)
    ensures
        !token_layout_ok(data@) ==> r == record_refused(VaultError::InvalidAccountData),
        token_layout_ok(data@) && data@[state_at()] == 0 ==> r == record_refused(VaultError::UninitializedAccount),
        token_layout_ok(data@) && data@[state_at()] != 0 ==> r is Ok,
        r is Ok ==> r->Ok_0.mint@ == token_mint(data@) && r->Ok_0.owner@ == token_owner(data@)
            && r->Ok_0.amount == token_amount(data@),
{
    match spl_token::state::Account::unpack(data) {
        Ok(a) => Ok(TokenRecord { mint: a.mint.to_bytes(), owner: a.owner.to_bytes(), amount: a.amount }),
        Err(ProgramError::UninitializedAccount) => Err(VaultError::UninitializedAccount),
        Err(_) => Err(VaultError::InvalidAccountData),
    }
}

/// Succeeds when `spl_account` holds a credential for `owner_account`: an
/// initialized token record of the configured mint, with at least the
/// configured amount, owned by `owner_account`.
pub fn owner(owner_account: &AccountView, spl_account: &AccountView, config: &CredentialConfig) -> (r: Result<(), VaultError>)
    ensures
        r == credential_check(owner_account.key@, spl_account.data@, *config),
{
    let record = unpack_token_account(spl_account.data.as_slice())?;
    if !same_key(&record.mint, &config.mint) {
        return Err(VaultError::WrongMint);
    }
    if record.amount < config.min_amount {
        return Err(VaultError::InsufficientCredentialBalance);
    }
    if !same_key(&record.owner, &owner_account.key) {
        return Err(VaultError::NotCredentialOwner);
    }
    Ok(())
}

/// The credential check, then the signer check of `owner_account`.
pub fn owner_signer(owner_account: &AccountView, spl_account: &AccountView, config: &CredentialConfig) -> (r: Result<(), VaultError>)
    ensures
        r == (match credential_check(owner_account.key@, spl_account.data@, *config) {
            Err(e) => Err(e),
            Ok(_) => signer_check(*owner_account),
        }),
{
    owner(owner_account, spl_account, config)?;
    signer(owner_account)
}

} // verus!
