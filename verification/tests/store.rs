//! Tests of the record store: issuance, account close, authority rotation.

use token_craft::authority::set_authority;
use token_craft::errors::ErrorCode;
use token_craft::ledger::{close_account, initialize, Ledger};
use token_craft::records::{AuthorityKind, Identity, MetadataRecord};

fn id(n: u64) -> Identity {
    Identity { id: n }
}

fn issued() -> Ledger {
    let mut store = Ledger::new();
    let res = initialize(
        &mut store,
        id(9),
        id(1),
        "Craft Coin".to_string(),
        "CRAFT".to_string(),
        "ipfs://craft-coin".to_string(),
        id(2),
    );
    assert_eq!(res, Ok(()));
    store
}

#[test]
fn initialize_creates_all_four_records() {
    let store = issued();
    assert_eq!(store.mints.len(), 1);
    assert_eq!(store.accounts.len(), 1);
    assert_eq!(store.metadata.len(), 1);
    assert_eq!(store.supply_caps.len(), 1);

    let mint = store.mints[0];
    assert_eq!(mint.key, id(9));
    assert_eq!(mint.decimals, 9);
    assert_eq!(mint.mint_authority, Some(id(2)));
    assert_eq!(mint.freeze_authority, Some(id(2)));

    let acct = store.accounts[0];
    assert_eq!(acct.key, id(1));
    assert_eq!(acct.mint, id(9));
    assert_eq!(acct.owner, id(2));
    assert_eq!(acct.amount, 1_000_000_000);
    assert_eq!(acct.delegate, None);
    assert_eq!(acct.delegated_amount, 0);
    assert!(!acct.frozen);

    let md = &store.metadata[0];
    assert_eq!(md.mint, id(9));
    assert_eq!(md.name, "Craft Coin");
    assert_eq!(md.symbol, "CRAFT");
    assert_eq!(md.uri, "ipfs://craft-coin");
    assert_eq!(md.update_authority, id(2));
    assert!(md.is_mutable);

    let cap = store.supply_caps[0];
    assert_eq!(cap.mint, id(9));
    assert_eq!(cap.max_supply, Some(0));
    assert_eq!(cap.update_authority, id(2));
}

#[test]
fn initialize_rejects_an_occupied_mint_slot() {
    let mut store = issued();
    let res = initialize(
        &mut store,
        id(9),
        id(50),
        "Other".to_string(),
        "OTH".to_string(),
        "ipfs://other".to_string(),
        id(3),
    );
    assert_eq!(res, Err(ErrorCode::AlreadyExists));
    // Atomicity: nothing was created.
    assert_eq!(store.mints.len(), 1);
    assert_eq!(store.accounts.len(), 1);
    assert_eq!(store.metadata.len(), 1);
    assert_eq!(store.supply_caps.len(), 1);
}

#[test]
fn initialize_rejects_an_occupied_account_slot() {
    let mut store = issued();
    let res = initialize(
        &mut store,
        id(10),
        id(1),
        "Other".to_string(),
        "OTH".to_string(),
        "ipfs://other".to_string(),
        id(3),
    );
    assert_eq!(res, Err(ErrorCode::AlreadyExists));
    assert_eq!(store.mints.len(), 1);
    assert_eq!(store.accounts.len(), 1);
}

#[test]
fn a_second_asset_can_be_issued_beside_the_first() {
    let mut store = issued();
    let res = initialize(
        &mut store,
        id(10),
        id(11),
        "Other".to_string(),
        "OTH".to_string(),
        "ipfs://other".to_string(),
        id(3),
    );
    assert_eq!(res, Ok(()));
    assert_eq!(store.mints.len(), 2);
    assert_eq!(store.accounts.len(), 2);
    assert_eq!(store.metadata.len(), 2);
    assert_eq!(store.supply_caps.len(), 2);
}

#[test]
fn close_account_removes_the_record() {
    let mut store = issued();
    assert_eq!(close_account(&mut store, id(1), id(2)), Ok(()));
    assert_eq!(store.accounts.len(), 0);
    assert_eq!(store.mints.len(), 1);
    assert_eq!(store.metadata.len(), 1);
    assert_eq!(store.supply_caps.len(), 1);
}

#[test]
fn close_account_requires_the_owner() {
    let mut store = issued();
    assert_eq!(close_account(&mut store, id(1), id(3)), Err(ErrorCode::Unauthorized));
    assert_eq!(store.accounts.len(), 1);
}

#[test]
fn close_account_rejects_a_frozen_account() {
    let mut store = issued();
    store.accounts[0].frozen = true;
    assert_eq!(close_account(&mut store, id(1), id(2)), Err(ErrorCode::FrozenAccount));
    assert_eq!(store.accounts.len(), 1);
}

#[test]
fn close_of_a_missing_account_is_not_found() {
    let mut store = issued();
    assert_eq!(close_account(&mut store, id(50), id(2)), Err(ErrorCode::NotFound));
    assert_eq!(store.accounts.len(), 1);
}

#[test]
fn close_discards_a_remaining_balance() {
    let mut store = issued();
    assert_eq!(store.accounts[0].amount, 1_000_000_000);
    // The balance need not be zero: close succeeds and the units are gone.
    assert_eq!(close_account(&mut store, id(1), id(2)), Ok(()));
    assert_eq!(store.accounts.len(), 0);
}

#[test]
fn set_authority_rotates_the_freeze_authority() {
    let mut store = issued();
    let res = set_authority(&mut store, id(9), id(2), Some(id(7)), AuthorityKind::FreezeAuthority);
    assert_eq!(res, Ok(()));
    assert_eq!(store.mints[0].freeze_authority, Some(id(7)));
    assert_eq!(store.mints[0].mint_authority, Some(id(2)));
    // The displaced holder cannot rotate it back.
    let res = set_authority(&mut store, id(9), id(2), Some(id(2)), AuthorityKind::FreezeAuthority);
    assert_eq!(res, Err(ErrorCode::Unauthorized));
    assert_eq!(store.mints[0].freeze_authority, Some(id(7)));
}

#[test]
fn set_authority_requires_the_current_holder() {
    let mut store = issued();
    let res = set_authority(&mut store, id(9), id(3), Some(id(3)), AuthorityKind::MintAuthority);
    assert_eq!(res, Err(ErrorCode::Unauthorized));
    assert_eq!(store.mints[0].mint_authority, Some(id(2)));
}

#[test]
fn set_authority_on_a_missing_mint_is_not_found() {
    let mut store = issued();
    let res = set_authority(&mut store, id(50), id(2), Some(id(3)), AuthorityKind::MintAuthority);
    assert_eq!(res, Err(ErrorCode::NotFound));
}

#[test]
fn a_cleared_mint_authority_is_gone_for_good() {
    let mut store = issued();
    let res = set_authority(&mut store, id(9), id(2), None, AuthorityKind::MintAuthority);
    assert_eq!(res, Ok(()));
    assert_eq!(store.mints[0].mint_authority, None);
    // Nobody, the former holder included, can reinstate it.
    let res = set_authority(&mut store, id(9), id(2), Some(id(2)), AuthorityKind::MintAuthority);
    assert_eq!(res, Err(ErrorCode::InvalidAuthority));
    assert_eq!(store.mints[0].mint_authority, None);
}

#[test]
fn set_authority_rotates_the_metadata_update_authority() {
    let mut store = issued();
    let res = set_authority(
        &mut store,
        id(9),
        id(2),
        Some(id(7)),
        AuthorityKind::MetadataUpdateAuthority,
    );
    assert_eq!(res, Ok(()));
    assert_eq!(store.metadata[0].update_authority, id(7));
    assert_eq!(store.metadata[0].name, "Craft Coin");
}

#[test]
fn metadata_update_authority_cannot_be_cleared() {
    let mut store = issued();
    let res = set_authority(&mut store, id(9), id(2), None, AuthorityKind::MetadataUpdateAuthority);
    assert_eq!(res, Err(ErrorCode::InvalidAuthority));
    assert_eq!(store.metadata[0].update_authority, id(2));
}

#[test]
fn an_immutable_metadata_record_rejects_rotation() {
    let mut store = Ledger::new();
    store.metadata.push(MetadataRecord {
        mint: id(9),
        name: "Sealed".to_string(),
        symbol: "SEAL".to_string(),
        uri: "ipfs://sealed".to_string(),
        update_authority: id(2),
        is_mutable: false,
    });
    let res = set_authority(
        &mut store,
        id(9),
        id(2),
        Some(id(7)),
        AuthorityKind::MetadataUpdateAuthority,
    );
    assert_eq!(res, Err(ErrorCode::InvalidAuthority));
    assert_eq!(store.metadata[0].update_authority, id(2));
}

#[test]
fn set_authority_rotates_the_supply_cap_authority() {
    let mut store = issued();
    let res = set_authority(&mut store, id(9), id(2), Some(id(7)), AuthorityKind::SupplyCapAuthority);
    assert_eq!(res, Ok(()));
    assert_eq!(store.supply_caps[0].update_authority, id(7));
    assert_eq!(store.supply_caps[0].max_supply, Some(0));
}

#[test]
fn supply_cap_authority_cannot_be_cleared() {
    let mut store = issued();
    let res = set_authority(&mut store, id(9), id(2), None, AuthorityKind::SupplyCapAuthority);
    assert_eq!(res, Err(ErrorCode::InvalidAuthority));
    assert_eq!(store.supply_caps[0].update_authority, id(2));
}

#[test]
fn error_kinds_describe_themselves() {
    assert_eq!(ErrorCode::Unauthorized.describe(), "unauthorized");
    assert_eq!(ErrorCode::InvalidAuthority.describe(), "invalid authority");
    assert_eq!(ErrorCode::FrozenAccount.describe(), "frozen account");
    assert_eq!(ErrorCode::InsufficientFunds.describe(), "insufficient funds");
    assert_eq!(ErrorCode::MintMismatch.describe(), "mint mismatch");
    assert_eq!(ErrorCode::AlreadyExists.describe(), "already exists");
    assert_eq!(ErrorCode::NotFound.describe(), "not found");
}
