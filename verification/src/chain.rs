//! Interpretation of the two chain-state reads, and the decision whether any
//! work is owed.

use vstd::prelude::*;

verus! {

/// What the tool reads of a parachain registration record: the optional lock
/// flag.
pub struct ParaRecord {
    pub locked: Option<bool>,
}

/// What the tool reads of an account record: the free, spendable balance.
pub struct AccountRecord {
    pub free: u128,
}

/// Whether a registration record reports the slot as locked: only a present
/// record whose flag is present and set counts. A missing record and a
/// missing or unset flag are deliberately not told apart.
pub open spec fn spec_locked(record: Option<ParaRecord>) -> bool {
    match record {
        Some(r) => r.locked == Some(true),
        None => false,
    }
}

/// The free balance a read reports: zero when no account record exists.
pub open spec fn spec_free_balance(record: Option<AccountRecord>) -> u128 {
    match record {
        Some(r) => r.free,
        None => 0,
    }
}

/// Reads the lock flag out of a fetched registration record.
pub fn check_locked_status(record: &Option<ParaRecord>) -> (r: bool)
    ensures
        r == spec_locked(*record),
{
    match record {
        Some(rec) => match rec.locked {
            Some(flag) => flag,
            None => false,
        },
        None => false,
    }
}

/// Reads the free balance out of a fetched account record.
pub fn free_balance(record: &Option<AccountRecord>) -> (r: u128)
    ensures
        r == spec_free_balance(*record),
{
    match record {
        Some(rec) => rec.free,
        None => 0,
    }
}

/// What the run does after the two reads: stop early, or build the payload.
#[derive(Clone, Copy, Debug, PartialEq, Eq, Structural)]
pub enum Action {
    /// The slot is not locked; nothing to undo.
    SkipNotLocked,
    /// The derived account holds nothing; nothing to refund.
    SkipZeroBalance,
    /// Build and print the unlock payload.
    BuildPayload,
}

/// The action owed for a lock status and a balance: the lock is consulted
/// first, then the balance, and only a locked slot with funds leads to a
/// payload.
pub open spec fn spec_plan(locked: bool, balance: u128) -> Action {
    if !locked {
        Action::SkipNotLocked
    } else if balance == 0 {
        Action::SkipZeroBalance
    } else {
        Action::BuildPayload
    }
}

/// Decides what the run does from the two values read off the chain.
pub fn plan(locked: bool, balance: u128) -> (a: Action)
    ensures
        a == spec_plan(locked, balance),
{
    if !locked {
        Action::SkipNotLocked
    } else if balance == 0 {
        Action::SkipZeroBalance
    } else {
        Action::BuildPayload
    }
}

/// A registration record whose lock flag is unset or absent — and likewise a
/// missing record — always reads as unlocked; no input is rejected.
pub proof fn lemma_unlocked_without_flag(record: Option<ParaRecord>)
    requires
        record matches Some(r) ==> r.locked != Some(true),
    ensures
        !spec_locked(record),
{
}

/// With a zero balance the plan never asks for the payload to be built,
/// whatever the lock status.
pub proof fn lemma_zero_balance_skips(locked: bool)
    ensures
        spec_plan(locked, 0) != Action::BuildPayload,
{
}

} // verus!
