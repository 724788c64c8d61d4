//! Properties of the vault that hold for all inputs, proved over the spec
//! functions that the entrypoints' contracts are stated in.
use vstd::prelude::*;
use crate::codec::{
    custody_creation, custody_record_valid, drain_request_amount, drain_request_valid, request_amount,
    request_seed,
    withdraw_request_valid,
};
use crate::credential::{
    credential_check, state_at, token_amount, token_layout_ok, token_mint, token_owner,
    CredentialConfig,
};
use crate::error::VaultError;
use crate::guard::AccountView;
use crate::key::seed_derivation;
use crate::policy::{lock_active, reserve_shortfall, withdraw_amount, LOCK_TIME};
use crate::processor::{drain_outcome, effect, instruction_outcome, withdraw_outcome, Transfer};

verus! {

/// The checks of a self-withdrawal that come before its amount: the
/// custody account is the program's, the owner signed, the request decodes,
/// and the custody address is the one derived for the owner.
pub open spec fn withdraw_authorized(program_id: Seq<u8>, accounts: Seq<AccountView>, data: Seq<u8>) -> bool {
    &&& accounts.len() >= 2
    &&& accounts[0].owner@ == program_id
    &&& accounts[1].is_signer
    &&& withdraw_request_valid(data)
    &&& seed_derivation(accounts[1].key@, request_seed(data), program_id) == Ok::<Seq<u8>, VaultError>(accounts[0].key@)
}

/// Whichever entrypoint an instruction selects, a custody account that the
/// program does not own makes it fail with `IncorrectOwner`, naming that
/// account's owner, and no account changes.
pub proof fn lemma_foreign_custody_refused(
    program_id: Seq<u8>,
    accounts: Seq<AccountView>,
    data: Seq<u8>,
    reserve: u64,
    now: i64,
    config: CredentialConfig,
)
    requires
        data.len() >= 1,
        data[0] == 0 || data[0] == 1,
        accounts.len() >= 1,
        accounts[0].owner@ != program_id,
    ensures
        instruction_outcome(program_id, accounts, data, reserve, now, config)
            == Err::<Transfer, VaultError>(VaultError::IncorrectOwner(accounts[0].owner)),
        effect(accounts, instruction_outcome(program_id, accounts, data, reserve, now, config))
            == accounts,
{
}

/// A self-withdrawal that asks for more than the custody balance never
/// succeeds and changes no account; once the caller is authorized it fails
/// with `InsufficientFunds`.
pub proof fn lemma_overdraw_refused(program_id: Seq<u8>, accounts: Seq<AccountView>, data: Seq<u8>, reserve: u64)
    requires
        withdraw_request_valid(data),
        accounts.len() >= 1,
        request_amount(data) > accounts[0].lamports,
    ensures
        withdraw_outcome(program_id, accounts, data, reserve) is Err,
        effect(accounts, withdraw_outcome(program_id, accounts, data, reserve)) == accounts,
        withdraw_authorized(program_id, accounts, data) ==> withdraw_outcome(program_id, accounts, data, reserve)
            == Err::<Transfer, VaultError>(VaultError::InsufficientFunds),
{
}

/// Where the balance exceeds the reserve by less than the amount asked
/// for, whatever moves is the whole balance: the request either takes all
/// of it or, asking for more than the balance, is refused.
pub proof fn lemma_reserve_shortfall_takes_all(balance: u64, reserve: u64, requested: u64)
    requires
        reserve < balance,
        balance < reserve + requested,
    ensures
        withdraw_amount(balance, reserve, requested) is Ok
            ==> withdraw_amount(balance, reserve, requested) == Ok::<u64, VaultError>(balance),
        requested <= balance ==> withdraw_amount(balance, reserve, requested) == Ok::<u64, VaultError>(balance),
{
}

/// An authorized self-withdrawal that would leave less than the reserve
/// moves the whole custody balance to the owner, leaving the custody
/// account empty, provided the two balances together fit in a `u64` (as
/// the total supply of lamports does).
pub proof fn lemma_withdraw_shortfall_empties_custody(
    program_id: Seq<u8>,
    accounts: Seq<AccountView>,
    data: Seq<u8>,
    reserve: u64,
)
    requires
        withdraw_authorized(program_id, accounts, data),
        reserve < accounts[0].lamports,
        accounts[0].lamports < reserve + request_amount(data),
        request_amount(data) <= accounts[0].lamports,
        accounts[0].lamports + accounts[1].lamports <= u64::MAX,
    ensures
        withdraw_outcome(program_id, accounts, data, reserve) == Ok::<Transfer, VaultError>(
            Transfer { amount: accounts[0].lamports, clamped: true, advisory: false },
        ),
        effect(accounts, withdraw_outcome(program_id, accounts, data, reserve))[0].lamports == 0,
        effect(accounts, withdraw_outcome(program_id, accounts, data, reserve))[1].lamports
            == accounts[1].lamports + accounts[0].lamports,
{
}

/// The lock holds exactly until `LOCK_TIME` seconds have passed since
/// creation, a creation time at or after `now` included.
pub proof fn lemma_lock_window(now: i64, creation: i64)
    ensures
        lock_active(now, creation) <==> now - creation < LOCK_TIME,
{
}

/// The checks of a forced drain that come before its lock check: the
/// custody account is the program's, the caller holds the credential and
/// signed, and both the custody record and the request decode.
pub open spec fn drain_authorized(program_id: Seq<u8>, accounts: Seq<AccountView>, data: Seq<u8>, config: CredentialConfig) -> bool {
    &&& accounts.len() >= 3
    &&& accounts[0].owner@ == program_id
    &&& credential_check(accounts[1].key@, accounts[2].data@, config) is Ok
    &&& accounts[1].is_signer
    &&& custody_record_valid(accounts[0].data@)
    &&& drain_request_valid(data)
}

/// An authorized drain fails with `LockActive` while fewer than `LOCK_TIME`
/// seconds have passed since the custody account's creation (a creation
/// time at or after `now` included), and from `LOCK_TIME` seconds on it passes the lock check:
/// the only failures left are a request above the balance and an overflow
/// of the caller's balance.
pub proof fn lemma_drain_lock_window(
    program_id: Seq<u8>,
    accounts: Seq<AccountView>,
    data: Seq<u8>,
    reserve: u64,
    now: i64,
    config: CredentialConfig,
)
    requires
        drain_authorized(program_id, accounts, data, config),
    ensures
        now - custody_creation(accounts[0].data@) < LOCK_TIME
            ==> drain_outcome(program_id, accounts, data, reserve, now, config)
            == Err::<Transfer, VaultError>(VaultError::LockActive),
        now - custody_creation(accounts[0].data@) >= LOCK_TIME
            ==> (drain_outcome(program_id, accounts, data, reserve, now, config) is Err
            ==> (drain_outcome(program_id, accounts, data, reserve, now, config)->Err_0
            == VaultError::InsufficientFunds || drain_outcome(program_id, accounts, data, reserve, now, config)->Err_0
            == VaultError::BalanceOverflow)),
{
}

/// A drain that asks for more than the custody balance never succeeds and
/// changes no account; once the caller is authorized and the lock is over
/// it fails with `InsufficientFunds`.
pub proof fn lemma_drain_overdraw_refused(
    program_id: Seq<u8>,
    accounts: Seq<AccountView>,
    data: Seq<u8>,
    reserve: u64,
    now: i64,
    config: CredentialConfig,
)
    requires
        drain_request_valid(data),
        accounts.len() >= 1,
        drain_request_amount(data) > accounts[0].lamports,
    ensures
        drain_outcome(program_id, accounts, data, reserve, now, config) is Err,
        effect(accounts, drain_outcome(program_id, accounts, data, reserve, now, config)) == accounts,
        drain_authorized(program_id, accounts, data, config) && !lock_active(
            now,
            custody_creation(accounts[0].data@),
        ) ==> drain_outcome(program_id, accounts, data, reserve, now, config)
            == Err::<Transfer, VaultError>(VaultError::InsufficientFunds),
{
}

/// An authorized drain, once the lock period is over, of no more than the
/// custody balance succeeds, provided the two balances together fit in a
/// `u64`. It moves the request, or the whole balance where the request
/// would leave less than the reserve, and then warns the caller.
pub proof fn lemma_drain_after_lock_succeeds(
    program_id: Seq<u8>,
    accounts: Seq<AccountView>,
    data: Seq<u8>,
    reserve: u64,
    now: i64,
    config: CredentialConfig,
)
    requires
        drain_authorized(program_id, accounts, data, config),
        now - custody_creation(accounts[0].data@) >= LOCK_TIME,
        drain_request_amount(data) <= accounts[0].lamports,
        accounts[0].lamports + accounts[1].lamports <= u64::MAX,
    ensures
        ({
            let balance = accounts[0].lamports;
            let requested = drain_request_amount(data);
            let cut = reserve_shortfall(balance, reserve, requested);
            let amount = if cut { balance } else { requested };
            let r = drain_outcome(program_id, accounts, data, reserve, now, config);
            &&& r == Ok::<Transfer, VaultError>(Transfer { amount, clamped: cut, advisory: cut })
            &&& effect(accounts, r)[0].lamports == balance - amount
            &&& effect(accounts, r)[1].lamports == accounts[1].lamports + amount
        }),
{
}

/// A drain succeeds only for an authorized caller, and only once
/// `LOCK_TIME` seconds have passed since the custody account's creation.
pub proof fn lemma_drain_success_needs_lock_over(
    program_id: Seq<u8>,
    accounts: Seq<AccountView>,
    data: Seq<u8>,
    reserve: u64,
    now: i64,
    config: CredentialConfig,
)
    ensures
        drain_outcome(program_id, accounts, data, reserve, now, config) is Ok ==> drain_authorized(
            program_id,
            accounts,
            data,
            config,
        ) && now - custody_creation(accounts[0].data@) >= LOCK_TIME,
{
}

/// The credential check of a decodable, initialized record reports a wrong
/// mint before a short balance, and a short balance before a wrong owner.
pub proof fn lemma_credential_check_order(claimant: Seq<u8>, d: Seq<u8>, config: CredentialConfig)
    requires
        token_layout_ok(d),
        d[state_at()] != 0,
    ensures
        token_mint(d) != config.mint@ ==> credential_check(claimant, d, config)
            == Err::<(), VaultError>(VaultError::WrongMint),
        token_mint(d) == config.mint@ && token_amount(d) < config.min_amount
            ==> credential_check(claimant, d, config)
            == Err::<(), VaultError>(VaultError::InsufficientCredentialBalance),
        token_mint(d) == config.mint@ && token_amount(d) >= config.min_amount && token_owner(d) != claimant
            ==> credential_check(claimant, d, config) == Err::<(), VaultError>(VaultError::NotCredentialOwner),
{
}

/// An instruction that is empty or whose leading byte selects no entrypoint
/// fails with `InvalidInstructionData` and changes no account.
pub proof fn lemma_unknown_entrypoint_refused(
    program_id: Seq<u8>,
    accounts: Seq<AccountView>,
    data: Seq<u8>,
    reserve: u64,
    now: i64,
    config: CredentialConfig,
)
    requires
        data.len() == 0 || (data[0] != 0 && data[0] != 1),
    ensures
        instruction_outcome(program_id, accounts, data, reserve, now, config)
            == Err::<Transfer, VaultError>(VaultError::InvalidInstructionData),
        effect(accounts, instruction_outcome(program_id, accounts, data, reserve, now, config))
            == accounts,
{
}

} // verus!
