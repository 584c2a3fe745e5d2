//! The balance and permission operations on token accounts. Each function
//! validates the request against the stored ownership, authority and
//! lifecycle fields, and either applies the mutation or returns one typed
//! error and leaves every record exactly as it was. The contracts tie each
//! function to its spec-level step in `model` and state the salient facts
//! directly: when success is owed, which error each rejected input gets, and
//! what the balances are afterwards.

use vstd::prelude::*;

use crate::errors::ErrorCode;
use crate::model::{approve_step, burn_step, freeze_step, revoke_step, thaw_step, transfer_step};
use crate::records::{Identity, Mint, TokenAccount};

verus! {

/// Moves `amount` from one token account to another holding the same mint.
/// Only the owner of the source account may request it, the source must not
/// be frozen, and its balance must cover the amount. The two balances
/// together must fit the balance type, which holds of any one mint whose
/// total supply does: a successful transfer conserves their sum exactly.
pub fn transfer(
    from: &mut TokenAccount,
    to: &mut TokenAccount,
    amount: u64,
    requester: Identity,
) -> (res: Result<(), ErrorCode>)
    requires
        old(from).amount + old(to).amount <= u64::MAX,
    ensures
        res == transfer_step(*old(from), *old(to), amount, requester).0,
        *final(from) == transfer_step(*old(from), *old(to), amount, requester).1,
        *final(to) == transfer_step(*old(from), *old(to), amount, requester).2,
        final(from).amount + final(to).amount == old(from).amount + old(to).amount,
        res is Ok <==> {
            &&& !old(from).frozen
            &&& requester == old(from).owner
            &&& old(from).mint == old(to).mint
            &&& amount <= old(from).amount
        },
        res is Ok ==> final(from).amount == old(from).amount - amount
            && final(to).amount == old(to).amount + amount,
        old(from).frozen ==> res == Err::<(), ErrorCode>(ErrorCode::FrozenAccount),
        res is Err ==> *final(from) == *old(from) && *final(to) == *old(to),
{
    if from.frozen {
        Err(ErrorCode::FrozenAccount)
    } else if requester != from.owner {
        Err(ErrorCode::Unauthorized)
    } else if from.mint != to.mint {
        Err(ErrorCode::MintMismatch)
    } else if amount > from.amount {
        Err(ErrorCode::InsufficientFunds)
    } else {
        from.amount = from.amount - amount;
        to.amount = to.amount + amount;
        Ok(())
    }
}

/// Destroys `amount` units held by the account. Only the owner may request
/// it, the account must not be frozen, it must hold units of the presented
/// mint, and its balance must cover the amount; on success the balance drops
/// by exactly the amount.
pub fn burn(
    account: &mut TokenAccount,
    mint: &Mint,
    amount: u64,
    requester: Identity,
) -> (res: Result<(), ErrorCode>)
    ensures
        res == burn_step(*old(account), *mint, amount, requester).0,
        *final(account) == burn_step(*old(account), *mint, amount, requester).1,
        res is Ok <==> {
            &&& !old(account).frozen
            &&& requester == old(account).owner
            &&& old(account).mint == mint.key
            &&& amount <= old(account).amount
        },
        res is Ok ==> final(account).amount == old(account).amount - amount,
        (!old(account).frozen && requester == old(account).owner
            && old(account).mint == mint.key && amount > old(account).amount)
            ==> res == Err::<(), ErrorCode>(ErrorCode::InsufficientFunds),
        old(account).frozen ==> res == Err::<(), ErrorCode>(ErrorCode::FrozenAccount),
        res is Err ==> *final(account) == *old(account),
{
    if account.frozen {
        Err(ErrorCode::FrozenAccount)
    } else if requester != account.owner {
        Err(ErrorCode::Unauthorized)
    } else if account.mint != mint.key {
        Err(ErrorCode::MintMismatch)
    } else if amount > account.amount {
        Err(ErrorCode::InsufficientFunds)
    } else {
        account.amount = account.amount - amount;
        Ok(())
    }
}

/// Freezes the account, after which it rejects transfer, burn, approve and
/// close until thawed. Only the mint's freeze authority may request it, and
/// the authority must be present; the account must hold units of the
/// presented mint. Freezing an already-frozen account succeeds unchanged.
pub fn freeze(account: &mut TokenAccount, mint: &Mint, requester: Identity) -> (res: Result<
    (),
    ErrorCode,
>)
    ensures
        res == freeze_step(*old(account), *mint, requester).0,
        *final(account) == freeze_step(*old(account), *mint, requester).1,
        res is Ok <==> old(account).mint == mint.key && mint.freeze_authority == Some(requester),
        res is Ok ==> final(account).frozen
            && *final(account) == (TokenAccount { frozen: true, ..*old(account) }),
        res is Err ==> *final(account) == *old(account),
{
    if account.mint != mint.key {
        return Err(ErrorCode::MintMismatch);
    }
    let authorized = match mint.freeze_authority {
        Some(a) => a == requester,
        None => false,
    };
    if !authorized {
        return Err(ErrorCode::InvalidAuthority);
    }
    account.frozen = true;
    Ok(())
}

/// Thaws the account, making it active again. The same authority rule as
/// `freeze` applies. Thawing an already-active account succeeds unchanged;
/// a frozen account always accepts a thaw by the freeze authority.
pub fn thaw(account: &mut TokenAccount, mint: &Mint, requester: Identity) -> (res: Result<
    (),
    ErrorCode,
>)
    ensures
        res == thaw_step(*old(account), *mint, requester).0,
        *final(account) == thaw_step(*old(account), *mint, requester).1,
        res is Ok <==> old(account).mint == mint.key && mint.freeze_authority == Some(requester),
        res is Ok ==> !final(account).frozen
            && *final(account) == (TokenAccount { frozen: false, ..*old(account) }),
        res is Err ==> *final(account) == *old(account),
{
    if account.mint != mint.key {
        return Err(ErrorCode::MintMismatch);
    }
    let authorized = match mint.freeze_authority {
        Some(a) => a == requester,
        None => false,
    };
    if !authorized {
        return Err(ErrorCode::InvalidAuthority);
    }
    account.frozen = false;
    Ok(())
}

/// Grants `delegate` a spending ceiling of `amount` over the account,
/// overwriting any prior delegation. Only the owner may request it and the
/// account must not be frozen. The ceiling is not checked against the
/// balance: over-delegation is permitted at approval time.
pub fn approve(
    account: &mut TokenAccount,
    delegate: Identity,
    amount: u64,
    requester: Identity,
) -> (res: Result<(), ErrorCode>)
    ensures
        res == approve_step(*old(account), delegate, amount, requester).0,
        *final(account) == approve_step(*old(account), delegate, amount, requester).1,
        res is Ok <==> !old(account).frozen && requester == old(account).owner,
        res is Ok ==> final(account).delegate == Some(delegate)
            && final(account).delegated_amount == amount,
        res is Err ==> *final(account) == *old(account),
{
    if account.frozen {
        Err(ErrorCode::FrozenAccount)
    } else if requester != account.owner {
        Err(ErrorCode::Unauthorized)
    } else {
        account.delegate = Some(delegate);
        account.delegated_amount = amount;
        Ok(())
    }
}

/// Clears any delegation on the account. Only the owner may request it; the
/// clearing itself is unconditional, so revoke is idempotent, and a frozen
/// account accepts it.
pub fn revoke(account: &mut TokenAccount, requester: Identity) -> (res: Result<(), ErrorCode>)
    ensures
        res == revoke_step(*old(account), requester).0,
        *final(account) == revoke_step(*old(account), requester).1,
        res is Ok <==> requester == old(account).owner,
        res is Ok ==> final(account).delegate is None && final(account).delegated_amount == 0,
        res is Err ==> *final(account) == *old(account),
{
    if requester != account.owner {
        Err(ErrorCode::Unauthorized)
    } else {
        account.delegate = None;
        account.delegated_amount = 0;
        Ok(())
    }
}

} // verus!
