//! Checks on the accounts an instruction is handed: who owns them, who
//! signed, and whether they keep their rent-exempt reserve.
use vstd::prelude::*;
use crate::error::VaultError;
use crate::key::same_key;

verus! {

/// What an entrypoint reads of one account passed to it.
pub struct AccountView {
    /// The account's address.
    pub key: [u8; 32],
    /// The program that owns the account.
    pub owner: [u8; 32],
    /// Whether the account signed the transaction.
    pub is_signer: bool,
    /// The account's balance.
    pub lamports: u64,
    /// The account's stored data.
    pub data: Vec<u8>,
}

pub open spec fn owner_check(account: AccountView, program_id: Seq<u8>) -> Result<(), VaultError> {
    if account.owner@ == program_id {
        Ok(())
    } else {
        Err(VaultError::IncorrectOwner(account.owner))
    }
}

pub open spec fn signer_check(account: AccountView) -> Result<(), VaultError> {
    if account.is_signer {
        Ok(())
    } else {
        Err(VaultError::MissingSignature)
    }
}

pub open spec fn reserve_check(account: AccountView, reserve: u64) -> Result<(), VaultError> {
    if account.lamports < reserve {
        Err(VaultError::AccountNotRentExempt)
    } else {
        Ok(())
    }
}

/// Succeeds when the account is owned by the program, so that the program
/// may change it; otherwise reports the account's actual owner.
pub fn writeable(account: &AccountView, program_id: &[u8; 32]) -> (r: Result<(), VaultError>)
    ensures
        r == owner_check(*account, program_id@),
{
    if same_key(&account.owner, program_id) {
        Ok(())
    } else {
        Err(VaultError::IncorrectOwner(account.owner))
    }
}

/// Succeeds when the account signed the transaction.
pub fn signer(account: &AccountView) -> (r: Result<(), VaultError>)
    ensures
        r == signer_check(*account),
{
    if account.is_signer {
        Ok(())
    } else {
        Err(VaultError::MissingSignature)
    }
}

/// Succeeds when the account holds at least `reserve`, the rent-exempt
/// minimum for its data size.
pub fn rent_exempt(account: &AccountView, reserve: u64) -> (r: Result<(), VaultError>)
    ensures
        r == reserve_check(*account, reserve),
{
    if account.lamports < reserve {
        Err(VaultError::AccountNotRentExempt)
    } else {
        Ok(())
    }
}

/// The owner check, then the reserve check.
pub fn rent_exempt_writeable(account: &AccountView, program_id: &[u8; 32], reserve: u64) -> (r: Result<(), VaultError>)
    ensures
        r == (match owner_check(*account, program_id@) {
            Err(e) => Err(e),
            Ok(_) => reserve_check(*account, reserve),
        }),
{
    writeable(account, program_id)?;
    rent_exempt(account, reserve)
}

} // verus!
