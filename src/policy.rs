//! The lock period of a custody account, and how much of its balance a
//! request may move.
use vstd::prelude::*;
use crate::error::VaultError;

verus! {

/// Length of the lock period: 256 days, in seconds.
pub const LOCK_TIME: i64 = 22118400;

/// Seconds of the lock period left at `now` for an account created at
/// `creation`.
pub open spec fn time_left(now: i64, creation: i64) -> int {
    LOCK_TIME - (now - creation)
}

/// The lock holds while time is left: fewer than `LOCK_TIME` seconds have
/// passed since creation. A creation time at or after `now`, which a skewed
/// clock or a record not yet written can give, keeps the lock on.
pub open spec fn lock_active(now: i64, creation: i64) -> bool {
    time_left(now, creation) > 0
}

/// Whether what would stay behind after moving `requested` is below the
/// reserve; the request is then cut to the whole balance.
pub open spec fn reserve_shortfall(balance: u64, reserve: u64, requested: u64) -> bool {
    balance - reserve < requested
}

/// Amount either entrypoint moves, or why it is refused: more than the
/// balance is refused, and where what would stay behind is below the
/// reserve, the whole balance goes.
pub open spec fn withdraw_amount(balance: u64, reserve: u64, requested: u64) -> Result<u64, VaultError> {
    if balance < requested {
        Err(VaultError::InsufficientFunds)
    } else if reserve_shortfall(balance, reserve, requested) {
        Ok(balance)
    } else {
        Ok(requested)
    }
}

/// Seconds of the lock period left; negative once it is over.
pub fn remaining_lock_time(now: i64, creation: i64) -> (r: i128)
    ensures
        r == time_left(now, creation),
{
    LOCK_TIME as i128 - (now as i128 - creation as i128)
}

/// Whether a drain at `now` of an account created at `creation` is refused.
pub fn is_locked(now: i64, creation: i64) -> (r: bool)
    ensures
        r == lock_active(now, creation),
{
    remaining_lock_time(now, creation) > 0
}

/// The amount a self-withdrawal of `requested` moves from an account that
/// holds `balance` and must keep `reserve`.
pub fn resolve_withdraw_amount(balance: u64, reserve: u64, requested: u64) -> (r: Result<u64, VaultError>)
    ensures
        r == withdraw_amount(balance, reserve, requested),
{
    if balance < requested {
        Err(VaultError::InsufficientFunds)
    } else if balance < reserve || balance - reserve < requested {
        Ok(balance)
    } else {
        Ok(requested)
    }
}

/// The amount a drain of `requested` moves, resolved as for a
/// self-withdrawal, and whether it was cut to the whole balance (which a
/// drain reports to the caller).
pub fn resolve_drain_amount(balance: u64, reserve: u64, requested: u64) -> (r: Result<(u64, bool), VaultError>)
    ensures
        r is Err <==> withdraw_amount(balance, reserve, requested) is Err,
        r is Err ==> r->Err_0 == VaultError::InsufficientFunds,
        r is Ok ==> withdraw_amount(balance, reserve, requested) == Ok::<u64, VaultError>(r->Ok_0.0)
            && r->Ok_0.1 == reserve_shortfall(balance, reserve, requested),
{
    let amount = resolve_withdraw_amount(balance, reserve, requested)?;
    Ok((amount, balance < reserve || balance - reserve < requested))
}

} // verus!
