//! Mathematical model of the balance-operation protocol: one spec function
//! per operation gives the result reported to the caller and the record
//! state after the call. The executable operations in `ops` are proved to
//! return and produce exactly these outcomes, and the laws in `laws` are
//! proved about them. Checks run in a fixed order and the first failing one
//! decides the error; a failed operation leaves every record unchanged.

use vstd::prelude::*;

use crate::errors::ErrorCode;
use crate::records::{Identity, Mint, TokenAccount};

verus! {

/// Outcome of `transfer`: checks frozen source, then ownership, then mint
/// agreement, then balance; on success it moves `amount` between the two
/// balances. The truncating casts never truncate when the two balances fit
/// in the balance type together, which `ops::transfer` requires.
pub open spec fn transfer_step(
    from: TokenAccount,
    to: TokenAccount,
    amount: u64,
    requester: Identity,
) -> (Result<(), ErrorCode>, TokenAccount, TokenAccount) {
    if from.frozen {
        (Err(ErrorCode::FrozenAccount), from, to)
    } else if requester != from.owner {
        (Err(ErrorCode::Unauthorized), from, to)
    } else if from.mint != to.mint {
        (Err(ErrorCode::MintMismatch), from, to)
    } else if amount > from.amount {
        (Err(ErrorCode::InsufficientFunds), from, to)
    } else {
        (
            Ok(()),
            TokenAccount { amount: (from.amount - amount) as u64, ..from },
            TokenAccount { amount: (to.amount + amount) as u64, ..to },
        )
    }
}

/// Outcome of `burn`: checks frozen account, then ownership, then that the
/// account holds units of the presented mint, then balance; on success it
/// removes `amount` from the balance (the destroyed units leave the supply
/// tracked by the host ledger).
pub open spec fn burn_step(
    account: TokenAccount,
    mint: Mint,
    amount: u64,
    requester: Identity,
) -> (Result<(), ErrorCode>, TokenAccount) {
    if account.frozen {
        (Err(ErrorCode::FrozenAccount), account)
    } else if requester != account.owner {
        (Err(ErrorCode::Unauthorized), account)
    } else if account.mint != mint.key {
        (Err(ErrorCode::MintMismatch), account)
    } else if amount > account.amount {
        (Err(ErrorCode::InsufficientFunds), account)
    } else {
        (Ok(()), TokenAccount { amount: (account.amount - amount) as u64, ..account })
    }
}

/// Outcome of `freeze`: checks that the account holds units of the presented
/// mint and that the requester is its freeze authority (which must be
/// present); on success the account is frozen. Freezing an already-frozen
/// account succeeds and changes nothing.
pub open spec fn freeze_step(
    account: TokenAccount,
    mint: Mint,
    requester: Identity,
) -> (Result<(), ErrorCode>, TokenAccount) {
    if account.mint != mint.key {
        (Err(ErrorCode::MintMismatch), account)
    } else if mint.freeze_authority != Some(requester) {
        (Err(ErrorCode::InvalidAuthority), account)
    } else {
        (Ok(()), TokenAccount { frozen: true, ..account })
    }
}

/// Outcome of `thaw`: the same checks as `freeze`; on success the account is
/// unfrozen. Thawing an already-active account succeeds and changes nothing.
pub open spec fn thaw_step(
    account: TokenAccount,
    mint: Mint,
    requester: Identity,
) -> (Result<(), ErrorCode>, TokenAccount) {
    if account.mint != mint.key {
        (Err(ErrorCode::MintMismatch), account)
    } else if mint.freeze_authority != Some(requester) {
        (Err(ErrorCode::InvalidAuthority), account)
    } else {
        (Ok(()), TokenAccount { frozen: false, ..account })
    }
}

/// Outcome of `approve`: checks frozen account, then ownership; on success
/// the delegate and its ceiling overwrite any prior delegation. The ceiling
/// is not checked against the balance: over-delegation is permitted.
pub open spec fn approve_step(
    account: TokenAccount,
    delegate: Identity,
    amount: u64,
    requester: Identity,
) -> (Result<(), ErrorCode>, TokenAccount) {
    if account.frozen {
        (Err(ErrorCode::FrozenAccount), account)
    } else if requester != account.owner {
        (Err(ErrorCode::Unauthorized), account)
    } else {
        (Ok(()), TokenAccount { delegate: Some(delegate), delegated_amount: amount, ..account })
    }
}

/// Outcome of `revoke`: checks ownership only; on success the delegation is
/// cleared unconditionally, so revoking twice is the same as revoking once.
/// A frozen account accepts revoke.
pub open spec fn revoke_step(
    account: TokenAccount,
    requester: Identity,
) -> (Result<(), ErrorCode>, TokenAccount) {
    if requester != account.owner {
        (Err(ErrorCode::Unauthorized), account)
    } else {
        (Ok(()), TokenAccount { delegate: None, delegated_amount: 0, ..account })
    }
}

} // verus!
