//! Laws of the protocol that relate several operations or several calls,
//! proved once and for all over the spec-level model. Single-call facts —
//! that a transfer conserves the sum of the two balances, that a frozen
//! source always yields `FrozenAccount` with both balances unchanged, and
//! when a burn is owed success — stand directly in the contracts of
//! `ops::transfer` and `ops::burn`.

use vstd::prelude::*;

use crate::authority::{metadata_authority_rotation, mint_authority_rotation};
use crate::errors::ErrorCode;
use crate::ledger::{
    has_account, has_metadata, has_mint, has_supply_cap, issued_account, issued_metadata,
    issued_mint, issued_supply_cap, Ledger,
};
use crate::model::{approve_step, freeze_step, revoke_step, thaw_step};
use crate::records::{Identity, MetadataRecord, Mint, TokenAccount};

verus! {

/// Law: issuance is atomic and exact. When the four target slots are free
/// and issuance appends its four records, the store afterwards holds exactly
/// one record of each kind for the new asset — the appended one — and held
/// none before.
pub proof fn lemma_issue_exactly_one(
    before: Ledger,
    after: Ledger,
    mint_key: Identity,
    account_key: Identity,
    name: String,
    symbol: String,
    uri: String,
    owner: Identity,
)
    requires
        !has_mint(before.mints@, mint_key),
        !has_account(before.accounts@, account_key),
        !has_metadata(before.metadata@, mint_key),
        !has_supply_cap(before.supply_caps@, mint_key),
        after.mints@ == before.mints@.push(issued_mint(mint_key, owner)),
        after.accounts@ == before.accounts@.push(issued_account(account_key, mint_key, owner)),
        after.metadata@ == before.metadata@.push(
            issued_metadata(mint_key, name, symbol, uri, owner),
        ),
        after.supply_caps@ == before.supply_caps@.push(issued_supply_cap(mint_key, owner)),
    ensures
        forall|i: int|
            0 <= i < after.mints@.len() ==> ((#[trigger] after.mints@[i]).key == mint_key <==> i
                == before.mints@.len()),
        forall|i: int|
            0 <= i < after.accounts@.len() ==> ((#[trigger] after.accounts@[i]).key == account_key
                <==> i == before.accounts@.len()),
        forall|i: int|
            0 <= i < after.metadata@.len() ==> ((#[trigger] after.metadata@[i]).mint == mint_key
                <==> i == before.metadata@.len()),
        forall|i: int|
            0 <= i < after.supply_caps@.len() ==> ((#[trigger] after.supply_caps@[i]).mint
                == mint_key <==> i == before.supply_caps@.len()),
{
    assert forall|i: int| 0 <= i < after.mints@.len() implies ((#[trigger] after.mints@[i]).key
        == mint_key <==> i == before.mints@.len()) by {
        if i < before.mints@.len() {
            assert(after.mints@[i] == before.mints@[i]);
        }
    }
    assert forall|i: int| 0 <= i < after.accounts@.len() implies ((
    #[trigger] after.accounts@[i]).key == account_key <==> i == before.accounts@.len()) by {
        if i < before.accounts@.len() {
            assert(after.accounts@[i] == before.accounts@[i]);
        }
    }
    assert forall|i: int| 0 <= i < after.metadata@.len() implies ((
    #[trigger] after.metadata@[i]).mint == mint_key <==> i == before.metadata@.len()) by {
        if i < before.metadata@.len() {
            assert(after.metadata@[i] == before.metadata@[i]);
        }
    }
    assert forall|i: int| 0 <= i < after.supply_caps@.len() implies ((
    #[trigger] after.supply_caps@[i]).mint == mint_key <==> i == before.supply_caps@.len()) by {
        if i < before.supply_caps@.len() {
            assert(after.supply_caps@[i] == before.supply_caps@[i]);
        }
    }
}

/// Law: freezing is idempotent. When a freeze succeeds, a second freeze of
/// the same account by the same authority also succeeds and leaves the
/// account exactly as the first left it.
pub proof fn lemma_freeze_idempotent(account: TokenAccount, mint: Mint, requester: Identity)
    requires
        freeze_step(account, mint, requester).0 is Ok,
    ensures
        freeze_step(freeze_step(account, mint, requester).1, mint, requester).0 is Ok,
        freeze_step(freeze_step(account, mint, requester).1, mint, requester).1 == freeze_step(
            account,
            mint,
            requester,
        ).1,
{
}

/// Law: thawing is idempotent, symmetrically to freezing.
pub proof fn lemma_thaw_idempotent(account: TokenAccount, mint: Mint, requester: Identity)
    requires
        thaw_step(account, mint, requester).0 is Ok,
    ensures
        thaw_step(thaw_step(account, mint, requester).1, mint, requester).0 is Ok,
        thaw_step(thaw_step(account, mint, requester).1, mint, requester).1 == thaw_step(
            account,
            mint,
            requester,
        ).1,
{
}

/// Law: approve then revoke is a round trip on an account that carries no
/// delegation: whatever the requester and whether either call succeeds, the
/// account afterwards equals its state before the approve. (On an account
/// that already carries a delegation the round trip does not restore it —
/// revoke clears the delegation outright — so such accounts are excluded.)
pub proof fn lemma_approve_revoke_round_trip(
    account: TokenAccount,
    delegate: Identity,
    amount: u64,
    requester: Identity,
)
    requires
        account.delegate is None,
        account.delegated_amount == 0,
    ensures
        revoke_step(approve_step(account, delegate, amount, requester).1, requester).1 == account,
{
}

/// Law: a metadata record that is no longer mutable never changes again,
/// its update authority included. Whatever rotation of the metadata update
/// authority is requested, an immutable record is either untouched by it or
/// rejects it unchanged.
pub proof fn lemma_immutable_metadata_never_changes(
    pre: Ledger,
    post: Ledger,
    res: Result<(), ErrorCode>,
    mint_key: Identity,
    requester: Identity,
    new_authority: Option<Identity>,
    i: int,
)
    requires
        metadata_authority_rotation(pre, post, res, mint_key, requester, new_authority),
        0 <= i < pre.metadata@.len(),
        !pre.metadata@[i].is_mutable,
    ensures
        post.metadata@[i] == pre.metadata@[i],
{
    if pre.metadata@[i].mint == mint_key {
        assert(post == pre);
    } else if has_metadata(pre.metadata@, mint_key) {
        let j = choose|j: int|
            0 <= j < pre.metadata@.len() && (#[trigger] pre.metadata@[j]).mint == mint_key;
        let md = pre.metadata@[j];
        if !md.is_mutable || md.update_authority != requester || new_authority is None {
            assert(post == pre);
        } else {
            let a = new_authority->0;
            assert(post.metadata@ == pre.metadata@.update(
                j,
                MetadataRecord { update_authority: a, ..md },
            ));
            assert(post.metadata@[i] == pre.metadata@[i]);
        }
    } else {
        assert(post == pre);
    }
}

/// Law: a cleared mint authority can never be reinstated. Whatever rotation
/// of the issuing authority is requested, a mint whose authority is absent
/// is either untouched by it or rejects it unchanged.
pub proof fn lemma_mint_authority_permanently_cleared(
    pre: Ledger,
    post: Ledger,
    res: Result<(), ErrorCode>,
    mint_key: Identity,
    requester: Identity,
    new_authority: Option<Identity>,
    i: int,
)
    requires
        mint_authority_rotation(pre, post, res, mint_key, requester, new_authority),
        0 <= i < pre.mints@.len(),
        pre.mints@[i].mint_authority is None,
    ensures
        post.mints@[i].mint_authority is None,
{
    if pre.mints@[i].key == mint_key {
        assert(res == Err::<(), ErrorCode>(ErrorCode::InvalidAuthority) && post == pre);
    } else if has_mint(pre.mints@, mint_key) {
        let j = choose|j: int| 0 <= j < pre.mints@.len() && (#[trigger] pre.mints@[j]).key == mint_key;
        match pre.mints@[j].mint_authority {
            None => {
                assert(post == pre);
            },
            Some(a) => {
                if a != requester {
                    assert(post == pre);
                } else {
                    assert(post.mints@ == pre.mints@.update(
                        j,
                        Mint { mint_authority: new_authority, ..pre.mints@[j] },
                    ));
                    assert(post.mints@[i] == pre.mints@[i]);
                }
            },
        }
    } else {
        assert(post == pre);
    }
}

} // verus!
