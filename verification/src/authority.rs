//! Authority rotation: `set_authority` rotates one of the four recognized
//! authority fields of an asset's records. The requester must be the current
//! holder of the field; a field that has no holder, or a record that is no
//! longer mutable, can never be rotated again.

use vstd::prelude::*;

use crate::errors::ErrorCode;
use crate::ledger::{has_metadata, has_mint, has_supply_cap, Ledger};
use crate::records::{AuthorityKind, Identity, MetadataRecord, Mint, SupplyCapRecord};

verus! {

/// What rotating the mint's issuing authority does: `NotFound` without a
/// mint at `mint_key`; `InvalidAuthority` once the authority is cleared (it
/// can never be reinstated); `Unauthorized` for any requester but the
/// current holder; otherwise the field becomes `new_authority` (possibly
/// cleared for good) and nothing else changes.
pub open spec fn mint_authority_rotation(
    pre: Ledger,
    post: Ledger,
    res: Result<(), ErrorCode>,
    mint_key: Identity,
    requester: Identity,
    new_authority: Option<Identity>,
) -> bool {
    &&& post.accounts@ == pre.accounts@
    &&& post.metadata@ == pre.metadata@
    &&& post.supply_caps@ == pre.supply_caps@
    &&& !has_mint(pre.mints@, mint_key) ==> res == Err::<(), ErrorCode>(ErrorCode::NotFound)
        && post == pre
    &&& forall|i: int|
        0 <= i < pre.mints@.len() && (#[trigger] pre.mints@[i]).key == mint_key ==> {
            let m = pre.mints@[i];
            match m.mint_authority {
                None => res == Err::<(), ErrorCode>(ErrorCode::InvalidAuthority) && post == pre,
                Some(a) => if a != requester {
                    res == Err::<(), ErrorCode>(ErrorCode::Unauthorized) && post == pre
                } else {
                    res is Ok && post.mints@ == pre.mints@.update(
                        i,
                        Mint { mint_authority: new_authority, ..m },
                    )
                },
            }
        }
}

/// What rotating the mint's freeze authority does: the same rule as
/// `mint_authority_rotation`, on the freeze-authority field.
pub open spec fn freeze_authority_rotation(
    pre: Ledger,
    post: Ledger,
    res: Result<(), ErrorCode>,
    mint_key: Identity,
    requester: Identity,
    new_authority: Option<Identity>,
) -> bool {
    &&& post.accounts@ == pre.accounts@
    &&& post.metadata@ == pre.metadata@
    &&& post.supply_caps@ == pre.supply_caps@
    &&& !has_mint(pre.mints@, mint_key) ==> res == Err::<(), ErrorCode>(ErrorCode::NotFound)
        && post == pre
    &&& forall|i: int|
        0 <= i < pre.mints@.len() && (#[trigger] pre.mints@[i]).key == mint_key ==> {
            let m = pre.mints@[i];
            match m.freeze_authority {
                None => res == Err::<(), ErrorCode>(ErrorCode::InvalidAuthority) && post == pre,
                Some(a) => if a != requester {
                    res == Err::<(), ErrorCode>(ErrorCode::Unauthorized) && post == pre
                } else {
                    res is Ok && post.mints@ == pre.mints@.update(
                        i,
                        Mint { freeze_authority: new_authority, ..m },
                    )
                },
            }
        }
}

/// What rotating the metadata update authority does: `NotFound` without a
/// metadata record for `mint_key`; `InvalidAuthority` on a record that is no
/// longer mutable; `Unauthorized` for any requester but the current holder;
/// `InvalidAuthority` again when the rotation asks to clear the field, which
/// a metadata record must always have; otherwise the field becomes the new
/// holder and nothing else changes.
pub open spec fn metadata_authority_rotation(
    pre: Ledger,
    post: Ledger,
    res: Result<(), ErrorCode>,
    mint_key: Identity,
    requester: Identity,
    new_authority: Option<Identity>,
) -> bool {
    &&& post.mints@ == pre.mints@
    &&& post.accounts@ == pre.accounts@
    &&& post.supply_caps@ == pre.supply_caps@
    &&& !has_metadata(pre.metadata@, mint_key) ==> res == Err::<(), ErrorCode>(ErrorCode::NotFound)
        && post == pre
    &&& forall|i: int|
        0 <= i < pre.metadata@.len() && (#[trigger] pre.metadata@[i]).mint == mint_key ==> {
            let md = pre.metadata@[i];
            if !md.is_mutable {
                res == Err::<(), ErrorCode>(ErrorCode::InvalidAuthority) && post == pre
            } else if md.update_authority != requester {
                res == Err::<(), ErrorCode>(ErrorCode::Unauthorized) && post == pre
            } else {
                match new_authority {
                    None => res == Err::<(), ErrorCode>(ErrorCode::InvalidAuthority) && post
                        == pre,
                    Some(a) => res is Ok && post.metadata@ == pre.metadata@.update(
                        i,
                        MetadataRecord { update_authority: a, ..md },
                    ),
                }
            }
        }
}

/// What rotating the supply-cap update authority does: `NotFound` without a
/// supply-cap record for `mint_key`; `Unauthorized` for any requester but
/// the current holder; `InvalidAuthority` when the rotation asks to clear
/// the field, which a supply-cap record must always have; otherwise the
/// field becomes the new holder and nothing else changes.
pub open spec fn supply_cap_authority_rotation(
    pre: Ledger,
    post: Ledger,
    res: Result<(), ErrorCode>,
    mint_key: Identity,
    requester: Identity,
    new_authority: Option<Identity>,
) -> bool {
    &&& post.mints@ == pre.mints@
    &&& post.accounts@ == pre.accounts@
    &&& post.metadata@ == pre.metadata@
    &&& !has_supply_cap(pre.supply_caps@, mint_key) ==> res == Err::<(), ErrorCode>(
        ErrorCode::NotFound,
    ) && post == pre
    &&& forall|i: int|
        0 <= i < pre.supply_caps@.len() && (#[trigger] pre.supply_caps@[i]).mint == mint_key ==> {
            let c = pre.supply_caps@[i];
            if c.update_authority != requester {
                res == Err::<(), ErrorCode>(ErrorCode::Unauthorized) && post == pre
            } else {
                match new_authority {
                    None => res == Err::<(), ErrorCode>(ErrorCode::InvalidAuthority) && post
                        == pre,
                    Some(a) => res is Ok && post.supply_caps@ == pre.supply_caps@.update(
                        i,
                        SupplyCapRecord { update_authority: a, ..c },
                    ),
                }
            }
        }
}

/// Rotates the authority field named by `authority_type` on the records of
/// the asset at `mint_key`. Which checks run and what the store looks like
/// afterwards is given per kind by the four rotation predicates above; in
/// every case the store stays well-formed, a failed rotation changes
/// nothing, and a successful one changes exactly the named field.
pub fn set_authority(
    store: &mut Ledger,
    mint_key: Identity,
    requester: Identity,
    new_authority: Option<Identity>,
    authority_type: AuthorityKind,
) -> (res: Result<(), ErrorCode>)
    requires
        old(store).wf(),
    ensures
        final(store).wf(),
        authority_type == AuthorityKind::MintAuthority ==> mint_authority_rotation(
            *old(store),
            *final(store),
            res,
            mint_key,
            requester,
            new_authority,
        ),
        authority_type == AuthorityKind::FreezeAuthority ==> freeze_authority_rotation(
            *old(store),
            *final(store),
            res,
            mint_key,
            requester,
            new_authority,
        ),
        authority_type == AuthorityKind::MetadataUpdateAuthority ==> metadata_authority_rotation(
            *old(store),
            *final(store),
            res,
            mint_key,
            requester,
            new_authority,
        ),
        authority_type == AuthorityKind::SupplyCapAuthority ==> supply_cap_authority_rotation(
            *old(store),
            *final(store),
            res,
            mint_key,
            requester,
            new_authority,
        ),
{
    match authority_type {
        AuthorityKind::MintAuthority => rotate_mint_authority(
            store,
            mint_key,
            requester,
            new_authority,
        ),
        AuthorityKind::FreezeAuthority => rotate_freeze_authority(
            store,
            mint_key,
            requester,
            new_authority,
        ),
        AuthorityKind::MetadataUpdateAuthority => rotate_metadata_authority(
            store,
            mint_key,
            requester,
            new_authority,
        ),
        AuthorityKind::SupplyCapAuthority => rotate_supply_cap_authority(
            store,
            mint_key,
            requester,
            new_authority,
        ),
    }
}

fn rotate_mint_authority(
    store: &mut Ledger,
    mint_key: Identity,
    requester: Identity,
    new_authority: Option<Identity>,
) -> (res: Result<(), ErrorCode>)
    requires
        old(store).wf(),
    ensures
        final(store).wf(),
        mint_authority_rotation(*old(store), *final(store), res, mint_key, requester, new_authority),
{
    match crate::ledger::find_mint_index(&store.mints, mint_key) {
        None => Err(ErrorCode::NotFound),
        Some(i) => {
            let m = store.mints[i];
            match m.mint_authority {
                None => Err(ErrorCode::InvalidAuthority),
                Some(a) => {
                    if a != requester {
                        Err(ErrorCode::Unauthorized)
                    } else {
                        store.mints[i] = Mint { mint_authority: new_authority, ..m };
                        Ok(())
                    }
                },
            }
        },
    }
}

fn rotate_freeze_authority(
    store: &mut Ledger,
    mint_key: Identity,
    requester: Identity,
    new_authority: Option<Identity>,
) -> (res: Result<(), ErrorCode>)
    requires
        old(store).wf(),
    ensures
        final(store).wf(),
        freeze_authority_rotation(
            *old(store),
            *final(store),
            res,
            mint_key,
            requester,
            new_authority,
        ),
{
    match crate::ledger::find_mint_index(&store.mints, mint_key) {
        None => Err(ErrorCode::NotFound),
        Some(i) => {
            let m = store.mints[i];
            match m.freeze_authority {
                None => Err(ErrorCode::InvalidAuthority),
                Some(a) => {
                    if a != requester {
                        Err(ErrorCode::Unauthorized)
                    } else {
                        store.mints[i] = Mint { freeze_authority: new_authority, ..m };
                        Ok(())
                    }
                },
            }
        },
    }
}

fn rotate_metadata_authority(
    store: &mut Ledger,
    mint_key: Identity,
    requester: Identity,
    new_authority: Option<Identity>,
) -> (res: Result<(), ErrorCode>)
    requires
        old(store).wf(),
    ensures
        final(store).wf(),
        metadata_authority_rotation(
            *old(store),
            *final(store),
            res,
            mint_key,
            requester,
            new_authority,
        ),
{
    match crate::ledger::find_metadata_index(&store.metadata, mint_key) {
        None => Err(ErrorCode::NotFound),
        Some(i) => {
            let mutable = store.metadata[i].is_mutable;
            let holder = store.metadata[i].update_authority;
            if !mutable {
                Err(ErrorCode::InvalidAuthority)
            } else if holder != requester {
                Err(ErrorCode::Unauthorized)
            } else {
                match new_authority {
                    None => Err(ErrorCode::InvalidAuthority),
                    Some(a) => {
                        let md = store.metadata.remove(i);
                        let updated = MetadataRecord { update_authority: a, ..md };
                        store.metadata.insert(i, updated);
                        proof {
                            assert(store.metadata@ =~= old(store).metadata@.update(
                                i as int,
                                MetadataRecord {
                                    update_authority: a,
                                    ..old(store).metadata@[i as int]
                                },
                            ));
                        }
                        Ok(())
                    },
                }
            }
        },
    }
}

fn rotate_supply_cap_authority(
    store: &mut Ledger,
    mint_key: Identity,
    requester: Identity,
    new_authority: Option<Identity>,
) -> (res: Result<(), ErrorCode>)
    requires
        old(store).wf(),
    ensures
        final(store).wf(),
        supply_cap_authority_rotation(
            *old(store),
            *final(store),
            res,
            mint_key,
            requester,
            new_authority,
        ),
{
    match crate::ledger::find_supply_cap_index(&store.supply_caps, mint_key) {
        None => Err(ErrorCode::NotFound),
        Some(i) => {
            let c = store.supply_caps[i];
            if c.update_authority != requester {
                Err(ErrorCode::Unauthorized)
            } else {
                match new_authority {
                    None => Err(ErrorCode::InvalidAuthority),
                    Some(a) => {
                        store.supply_caps[i] = SupplyCapRecord { update_authority: a, ..c };
                        Ok(())
                    },
                }
            }
        },
    }
}

} // verus!
