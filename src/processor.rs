//! The two entrypoints of the vault, self-withdrawal and forced drain, and
//! the dispatch on the instruction's leading byte.
use vstd::prelude::*;
use crate::codec::{
    custody_creation, custody_record_valid, decode_account_creation, decode_drain_request,
    decode_withdraw_request, drain_request_amount, drain_request_valid, request_amount,
    request_seed, withdraw_request_valid,
};
use crate::credential::{credential_check, owner_signer, CredentialConfig};
use crate::error::VaultError;
use crate::guard::{owner_check, signer, writeable, AccountView};
use crate::key::{derive_custody_address, same_key, seed_derivation};
use crate::policy::{
    is_locked, lock_active, reserve_shortfall, resolve_drain_amount, resolve_withdraw_amount,
    withdraw_amount,
};

verus! {

/// What an entrypoint moved from the custody account (index 0) to the
/// recipient (index 1).
#[derive(Debug, Clone, Copy, PartialEq, Eq, Structural)]
pub struct Transfer {
    pub amount: u64,
    /// The whole balance was taken in place of the amount requested.
    pub clamped: bool,
    /// The caller is to be warned of the cut: drains warn, self-withdrawals
    /// cut silently.
    pub advisory: bool,
}

/// The entrypoints an instruction can select.
#[derive(Debug, Clone, Copy, PartialEq, Eq, Structural)]
pub enum Entrypoint {
    Withdraw,
    Drain,
}

pub open spec fn entrypoint_of(tag: u8) -> Option<Entrypoint> {
    if tag == 0 {
        Some(Entrypoint::Withdraw)
    } else if tag == 1 {
        Some(Entrypoint::Drain)
    } else {
        None
    }
}

pub open spec fn with_lamports(a: AccountView, lamports: int) -> AccountView {
    AccountView { lamports: lamports as u64, ..a }
}

/// The accounts after `amount` was taken from `from` and then given to `to`.
pub open spec fn moved(s: Seq<AccountView>, from: int, to: int, amount: u64) -> Seq<AccountView> {
    let s1 = s.update(from, with_lamports(s[from], s[from].lamports - amount));
    s1.update(to, with_lamports(s1[to], s1[to].lamports + amount))
}

/// The accounts after an entrypoint returned `r`: on success the transfer
/// from index 0 to index 1, on failure no change at all.
pub open spec fn effect(s: Seq<AccountView>, r: Result<Transfer, VaultError>) -> Seq<AccountView> {
    match r {
        Ok(t) => moved(s, 0, 1, t.amount),
        Err(_) => s,
    }
}

/// Crediting `amount` to the recipient, or the overflow that forbids it.
pub open spec fn credit(accounts: Seq<AccountView>, t: Transfer) -> Result<Transfer, VaultError> {
    if accounts[1].lamports + t.amount > u64::MAX {
        Err(VaultError::BalanceOverflow)
    } else {
        Ok(t)
    }
}

/// Outcome of a self-withdrawal. Accounts: the custody account, then its
/// owner. The custody address must be the one derived from the owner's
/// address, the request's seed and the program.
pub open spec fn withdraw_outcome(program_id: Seq<u8>, accounts: Seq<AccountView>, data: Seq<u8>, reserve: u64) -> Result<Transfer, VaultError> {
    if accounts.len() < 1 {
        Err(VaultError::NotEnoughAccountKeys)
    } else if owner_check(accounts[0], program_id) is Err {
        Err(VaultError::IncorrectOwner(accounts[0].owner))
    } else if accounts.len() < 2 {
        Err(VaultError::NotEnoughAccountKeys)
    } else if !accounts[1].is_signer {
        Err(VaultError::MissingSignature)
    } else if !withdraw_request_valid(data) {
        Err(VaultError::InvalidInstructionData)
    } else {
        match seed_derivation(accounts[1].key@, request_seed(data), program_id) {
            Err(e) => Err(e),
            Ok(address) => if address != accounts[0].key@ {
                Err(VaultError::IllegalOwner)
            } else {
                let balance = accounts[0].lamports;
                let requested = request_amount(data);
                match withdraw_amount(balance, reserve, requested) {
                    Err(e) => Err(e),
                    Ok(amount) => credit(
                        accounts,
                        Transfer {
                            amount,
                            clamped: reserve_shortfall(balance, reserve, requested),
                            advisory: false,
                        },
                    ),
                }
            },
        }
    }
}

/// Outcome of a forced drain at time `now`. Accounts: the custody account,
/// the privileged caller, the caller's credential record.
pub open spec fn drain_outcome(
    program_id: Seq<u8>,
    accounts: Seq<AccountView>,
    data: Seq<u8>,
    reserve: u64,
    now: i64,
    config: CredentialConfig,
) -> Result<Transfer, VaultError> {
    if accounts.len() < 1 {
        Err(VaultError::NotEnoughAccountKeys)
    } else if owner_check(accounts[0], program_id) is Err {
        Err(VaultError::IncorrectOwner(accounts[0].owner))
    } else if accounts.len() < 3 {
        Err(VaultError::NotEnoughAccountKeys)
    } else if credential_check(accounts[1].key@, accounts[2].data@, config) is Err {
        Err(credential_check(accounts[1].key@, accounts[2].data@, config)->Err_0)
    } else if !accounts[1].is_signer {
        Err(VaultError::MissingSignature)
    } else if !custody_record_valid(accounts[0].data@) {
        Err(VaultError::InvalidAccountData)
    } else if !drain_request_valid(data) {
        Err(VaultError::InvalidInstructionData)
    } else if lock_active(now, custody_creation(accounts[0].data@)) {
        Err(VaultError::LockActive)
    } else {
        let balance = accounts[0].lamports;
        let requested = drain_request_amount(data);
        match withdraw_amount(balance, reserve, requested) {
            Err(e) => Err(e),
            Ok(amount) => {
                let clamped = reserve_shortfall(balance, reserve, requested);
                credit(accounts, Transfer { amount, clamped, advisory: clamped })
            },
        }
    }
}

/// Outcome of an instruction: its first byte selects the entrypoint, the
/// rest is that entrypoint's request.
pub open spec fn instruction_outcome(
    program_id: Seq<u8>,
    accounts: Seq<AccountView>,
    data: Seq<u8>,
    reserve: u64,
    now: i64,
    config: CredentialConfig,
) -> Result<Transfer, VaultError> {
    if data.len() == 0 {
        Err(VaultError::InvalidInstructionData)
    } else {
        match entrypoint_of(data[0]) {
            None => Err(VaultError::InvalidInstructionData),
            Some(Entrypoint::Withdraw) => withdraw_outcome(
                program_id,
                accounts,
                data.subrange(1, data.len() as int),
                reserve,
            ),
            Some(Entrypoint::Drain) => drain_outcome(
                program_id,
                accounts,
                data.subrange(1, data.len() as int),
                reserve,
                now,
                config,
            ),
        }
    }
}

/// The entrypoint that the leading byte `tag` selects: `0` withdraws, `1`
/// drains, any other byte selects none.
pub fn select_entrypoint(tag: u8) -> (r: Option<Entrypoint>)
    ensures
        r == entrypoint_of(tag),
{
    match tag {
        0 => Some(Entrypoint::Withdraw),
        1 => Some(Entrypoint::Drain),
        _ => None,
    }
}

/// Takes `amount` from account `from` and gives it to account `to`, unless
/// the recipient's balance would overflow.
fn move_lamports(accounts: &mut Vec<AccountView>, from: usize, to: usize, amount: u64) -> (r: Result<(), VaultError>)
    requires
        from < old(accounts).len(),
        to < old(accounts).len(),
        from != to,
        amount <= old(accounts)@[from as int].lamports,
    ensures
        r is Err <==> old(accounts)@[to as int].lamports + amount > u64::MAX,
        r is Err ==> r->Err_0 == VaultError::BalanceOverflow,
        r is Ok ==> final(accounts)@ == moved(old(accounts)@, from as int, to as int, amount),
        r is Err ==> final(accounts)@ == old(accounts)@,
{
    if accounts[to].lamports > u64::MAX - amount {
        return Err(VaultError::BalanceOverflow);
    }
    let ghost s = accounts@;
    let mut slot = AccountView {
        key: [0u8; 32],
        owner: [0u8; 32],
        is_signer: false,
        lamports: 0,
        data: Vec::new(),
    };
    accounts.set_and_swap(from, &mut slot);
    slot.lamports = slot.lamports - amount;
    accounts.set_and_swap(from, &mut slot);
    let ghost s1 = accounts@;
    assert(s1 == s.update(from as int, with_lamports(s[from as int], s[from as int].lamports - amount)));
    accounts.set_and_swap(to, &mut slot);
    slot.lamports = slot.lamports + amount;
    accounts.set_and_swap(to, &mut slot);
    assert(accounts@ == s1.update(to as int, with_lamports(s1[to as int], s1[to as int].lamports + amount)));
    Ok(())
}

/// Self-withdrawal: the owner of a custody account takes `amount` out of
/// it. Accounts: the custody account, then its owner, who must sign. The
/// request is `{ seed, amount }`; the custody address must be the one
/// derived from the owner's address, the seed and the program. More than
/// the balance is refused; where what would stay is below `reserve`, the
/// rent-exempt minimum, the whole balance is taken.
pub fn withdraw(program_id: &[u8; 32], accounts: &mut Vec<AccountView>, data: &[u8], reserve: u64) -> (r: Result<Transfer, VaultError>)
    ensures
        r == withdraw_outcome(program_id@, old(accounts)@, data@, reserve),
        final(accounts)@ == effect(old(accounts)@, r),
{
    if accounts.len() < 1 {
        return Err(VaultError::NotEnoughAccountKeys);
    }
    writeable(&accounts[0], program_id)?;
    if accounts.len() < 2 {
        return Err(VaultError::NotEnoughAccountKeys);
    }
    signer(&accounts[1])?;
    let request = match decode_withdraw_request(data) {
        Some(q) => q,
        None => return Err(VaultError::InvalidInstructionData),
    };
    let address = derive_custody_address(&accounts[1].key, request.0.as_str(), program_id)?;
    if !same_key(&address, &accounts[0].key) {
        return Err(VaultError::IllegalOwner);
    }
    let balance = accounts[0].lamports;
    let requested = request.1;
    let amount = resolve_withdraw_amount(balance, reserve, requested)?;
    let clamped = balance < reserve || balance - reserve < requested;
    let transfer = Transfer { amount, clamped, advisory: false };
    move_lamports(accounts, 0, 1, amount)?;
    Ok(transfer)
}

/// Forced drain: a holder of the vault credential takes `amount` out of a
/// custody account whose lock period is over. Accounts: the custody
/// account, the caller, who must sign, and the caller's credential record.
/// The request is `{ amount }`. More than the balance is refused; where
/// what would stay is below `reserve`, the whole balance is taken, and the
/// caller is warned of it.
pub fn drain_account(
    program_id: &[u8; 32],
    accounts: &mut Vec<AccountView>,
    data: &[u8],
    reserve: u64,
    now: i64,
    config: &CredentialConfig,
) -> (r: Result<Transfer, VaultError>)
    ensures
        r == drain_outcome(program_id@, old(accounts)@, data@, reserve, now, *config),
        final(accounts)@ == effect(old(accounts)@, r),
{
    if accounts.len() < 1 {
        return Err(VaultError::NotEnoughAccountKeys);
    }
    writeable(&accounts[0], program_id)?;
    if accounts.len() < 3 {
        return Err(VaultError::NotEnoughAccountKeys);
    }
    owner_signer(&accounts[1], &accounts[2], config)?;
    let creation = match decode_account_creation(accounts[0].data.as_slice()) {
        Some(c) => c,
        None => return Err(VaultError::InvalidAccountData),
    };
    let requested = match decode_drain_request(data) {
        Some(a) => a,
        None => return Err(VaultError::InvalidInstructionData),
    };
    if is_locked(now, creation) {
        return Err(VaultError::LockActive);
    }
    let (amount, clamped) = resolve_drain_amount(accounts[0].lamports, reserve, requested)?;
    move_lamports(accounts, 0, 1, amount)?;
    Ok(Transfer { amount, clamped, advisory: clamped })
}

/// Runs the instruction `data` on `accounts`: a leading `0` is a
/// self-withdrawal, a leading `1` a forced drain, anything else, or no
/// byte at all, is refused. `reserve` is the rent-exempt minimum of the
/// custody account and `now` the clock's Unix time.
pub fn process_instruction(
    program_id: &[u8; 32],
    accounts: &mut Vec<AccountView>,
    data: &[u8],
    reserve: u64,
    now: i64,
    config: &CredentialConfig,
) -> (r: Result<Transfer, VaultError>)
    ensures
        r == instruction_outcome(program_id@, old(accounts)@, data@, reserve, now, *config),
        final(accounts)@ == effect(old(accounts)@, r),
{
    if data.len() == 0 {
        return Err(VaultError::InvalidInstructionData);
    }
    let request = vstd::slice::slice_subrange(data, 1, data.len());
    match select_entrypoint(data[0]) {
        Some(Entrypoint::Withdraw) => withdraw(program_id, accounts, request, reserve),
        Some(Entrypoint::Drain) => drain_account(program_id, accounts, request, reserve, now, config),
        None => Err(VaultError::InvalidInstructionData),
    }
}

} // verus!
