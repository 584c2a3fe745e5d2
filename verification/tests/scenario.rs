//! End-to-end session: issue an asset, move part of the supply, freeze the
//! source account and watch a further transfer bounce with the balances
//! untouched.

use token_craft::errors::ErrorCode;
use token_craft::ledger::{initialize, Ledger};
use token_craft::ops::{freeze, transfer};
use token_craft::records::{Identity, TokenAccount};

fn id(n: u64) -> Identity {
    Identity { id: n }
}

#[test]
fn issue_transfer_freeze_session() {
    // Issue mint M; its starting supply sits in account A, owned by O.
    let mut store = Ledger::new();
    let owner = id(2);
    let res = initialize(
        &mut store,
        id(9),
        id(1),
        "Craft Coin".to_string(),
        "CRAFT".to_string(),
        "ipfs://craft-coin".to_string(),
        owner,
    );
    assert_eq!(res, Ok(()));
    let mint = store.mints[0];
    let mut a = store.accounts[0];
    assert_eq!(a.amount, 1_000_000_000);

    // B is an empty account of the same mint.
    let mut b = TokenAccount {
        key: id(3),
        mint: id(9),
        owner: id(4),
        amount: 0,
        delegate: None,
        delegated_amount: 0,
        frozen: false,
    };

    // O moves 400 units from A to B.
    assert_eq!(transfer(&mut a, &mut b, 400, owner), Ok(()));
    assert_eq!(a.amount, 999_999_600);
    assert_eq!(b.amount, 400);

    // The freeze authority freezes A.
    let freeze_authority = mint.freeze_authority.unwrap();
    assert_eq!(freeze(&mut a, &mint, freeze_authority), Ok(()));
    assert!(a.frozen);

    // A further transfer from A bounces and moves nothing.
    assert_eq!(transfer(&mut a, &mut b, 1, owner), Err(ErrorCode::FrozenAccount));
    assert_eq!(a.amount, 999_999_600);
    assert_eq!(b.amount, 400);
}
