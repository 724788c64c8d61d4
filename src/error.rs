use vstd::prelude::*;

verus! {

/// Why an instruction was refused. Every error aborts the whole instruction:
/// no balance is changed when one is returned.
#[derive(Debug, Clone, Copy, PartialEq, Eq)]
pub enum VaultError {
    /// Fewer accounts were passed than the entrypoint reads.
    NotEnoughAccountKeys,
    /// The custody account is not owned by the program; carries its owner.
    IncorrectOwner([u8; 32]),
    /// An account that must have signed did not.
    MissingSignature,
    /// The credential record is of another mint.
    WrongMint,
    /// The credential record holds fewer tokens than the threshold.
    InsufficientCredentialBalance,
    /// The credential record belongs to someone else than the claimant.
    NotCredentialOwner,
    /// Account data does not decode.
    InvalidAccountData,
    /// The credential record decodes but was never initialized.
    UninitializedAccount,
    /// Instruction data does not decode or names no entrypoint.
    InvalidInstructionData,
    /// The seed is longer than an address derivation accepts.
    MaxSeedLengthExceeded,
    /// The seeds do not give an address.
    InvalidSeeds,
    /// The caller does not own the custody account, or the derivation's
    /// owner is a reserved program-derived-address marker.
    IllegalOwner,
    /// The custody account holds less than was asked for.
    InsufficientFunds,
    /// The lock period of the custody account is still running.
    LockActive,
    /// The account holds less than its rent-exempt reserve.
    AccountNotRentExempt,
    /// Crediting the recipient would overflow its balance.
    BalanceOverflow,
}

} // verus!
