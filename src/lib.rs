//! A custodial token-lock vault: a program-owned custody account holds
//! lamports for an owner, who may withdraw them at any time, while a holder
//! of the vault credential may drain the account once its lock period is over.
//!
//! The runtime's accounts are seen here as plain `AccountView` values; the
//! decisions of both entrypoints are verified against spec functions that
//! state each outcome, and `laws` proves what holds of them for all inputs.

pub mod codec;
pub mod credential;
pub mod error;
pub mod guard;
pub mod key;
pub mod laws;
pub mod policy;
pub mod processor;

pub use credential::{owner, owner_signer, CredentialConfig, TOKEN_ACCOUNT_LEN};
pub use error::VaultError;
pub use guard::{rent_exempt, rent_exempt_writeable, signer, writeable, AccountView};
pub use key::{same_key, MAX_SEED_LEN, PUBKEY_LEN};
pub use policy::{
    is_locked, remaining_lock_time, resolve_drain_amount, resolve_withdraw_amount, LOCK_TIME,
};
pub use processor::{
    drain_account, process_instruction, select_entrypoint, withdraw, Entrypoint, Transfer,
};
