//! The record store and its lifecycle operations: atomic issuance of the
//! four records of an asset, closing a token account, and rotating an
//! authority field. The store keeps each record kind addressable by its key
//! and well-formed: no two records of one kind share an address.

use vstd::prelude::*;

use crate::errors::ErrorCode;
use crate::records::{
    Identity, MetadataRecord, Mint, SupplyCapRecord, TokenAccount, DECIMALS, STARTING_SUPPLY,
};

verus! {

/// Whether some mint record carries the address `key`.
pub open spec fn has_mint(s: Seq<Mint>, key: Identity) -> bool {
    exists|i: int| 0 <= i < s.len() && s[i].key == key
}

/// Whether some token account record carries the address `key`.
pub open spec fn has_account(s: Seq<TokenAccount>, key: Identity) -> bool {
    exists|i: int| 0 <= i < s.len() && s[i].key == key
}

/// Whether some metadata record describes the mint at address `mint`.
pub open spec fn has_metadata(s: Seq<MetadataRecord>, mint: Identity) -> bool {
    exists|i: int| 0 <= i < s.len() && s[i].mint == mint
}

/// Whether some supply-cap record caps the mint at address `mint`.
pub open spec fn has_supply_cap(s: Seq<SupplyCapRecord>, mint: Identity) -> bool {
    exists|i: int| 0 <= i < s.len() && s[i].mint == mint
}

/// The mint record issuance creates: the given precision, and both
/// authorities held by the requesting owner.
pub open spec fn issued_mint(mint_key: Identity, owner: Identity) -> Mint {
    Mint {
        key: mint_key,
        decimals: DECIMALS,
        mint_authority: Some(owner),
        freeze_authority: Some(owner),
    }
}

/// The token account issuance creates: the whole starting supply, owned by
/// the requesting owner, active and undelegated.
pub open spec fn issued_account(
    account_key: Identity,
    mint_key: Identity,
    owner: Identity,
) -> TokenAccount {
    TokenAccount {
        key: account_key,
        mint: mint_key,
        owner,
        amount: STARTING_SUPPLY,
        delegate: None,
        delegated_amount: 0,
        frozen: false,
    }
}

/// The metadata record issuance creates: mutable, with the requesting owner
/// as update authority.
pub open spec fn issued_metadata(
    mint_key: Identity,
    name: String,
    symbol: String,
    uri: String,
    owner: Identity,
) -> MetadataRecord {
    MetadataRecord { mint: mint_key, name, symbol, uri, update_authority: owner, is_mutable: true }
}

/// The supply-cap record issuance creates: a cap of zero further units, with
/// the requesting owner as update authority.
pub open spec fn issued_supply_cap(mint_key: Identity, owner: Identity) -> SupplyCapRecord {
    SupplyCapRecord { mint: mint_key, max_supply: Some(0), update_authority: owner }
}

/// The record store: every persisted record of each of the four kinds.
pub struct Ledger {
    /// All mint records, addressed by `Mint::key`.
    pub mints: Vec<Mint>,
    /// All token accounts, addressed by `TokenAccount::key`.
    pub accounts: Vec<TokenAccount>,
    /// All metadata records, one per described mint.
    pub metadata: Vec<MetadataRecord>,
    /// All supply-cap records, one per capped mint.
    pub supply_caps: Vec<SupplyCapRecord>,
}

impl Ledger {
    /// Well-formedness: within each record kind, addresses are unique, so a
    /// key names at most one record.
    pub open spec fn wf(self) -> bool {
        &&& forall|i: int, j: int|
            0 <= i < j < self.mints@.len() ==> #[trigger] self.mints@[i].key != #[trigger] self.mints@[j].key
        &&& forall|i: int, j: int|
            0 <= i < j < self.accounts@.len() ==> #[trigger] self.accounts@[i].key
                != #[trigger] self.accounts@[j].key
        &&& forall|i: int, j: int|
            0 <= i < j < self.metadata@.len() ==> #[trigger] self.metadata@[i].mint
                != #[trigger] self.metadata@[j].mint
        &&& forall|i: int, j: int|
            0 <= i < j < self.supply_caps@.len() ==> #[trigger] self.supply_caps@[i].mint
                != #[trigger] self.supply_caps@[j].mint
    }

    /// An empty store, trivially well-formed.
    pub fn new() -> (l: Ledger)
        ensures
            l.wf(),
            l.mints@.len() == 0,
            l.accounts@.len() == 0,
            l.metadata@.len() == 0,
            l.supply_caps@.len() == 0,
    {
        Ledger { mints: Vec::new(), accounts: Vec::new(), metadata: Vec::new(), supply_caps: Vec::new() }
    }
}

/// Index of the mint record at address `key`, if one exists.
pub(crate) fn find_mint_index(mints: &Vec<Mint>, key: Identity) -> (r: Option<usize>)
    ensures
        match r {
            Some(i) => i < mints@.len() && mints@[i as int].key == key,
            None => !has_mint(mints@, key),
        },
{
    let mut i: usize = 0;
    while i < mints.len()
        invariant
            i <= mints@.len(),
            forall|j: int| 0 <= j < i ==> #[trigger] mints@[j].key != key,
        decreases mints@.len() - i,
    {
        if mints[i].key == key {
            return Some(i);
        }
        i = i + 1;
    }
    None
}

/// Index of the token account record at address `key`, if one exists.
pub(crate) fn find_account_index(accounts: &Vec<TokenAccount>, key: Identity) -> (r: Option<usize>)
    ensures
        match r {
            Some(i) => i < accounts@.len() && accounts@[i as int].key == key,
            None => !has_account(accounts@, key),
        },
{
    let mut i: usize = 0;
    while i < accounts.len()
        invariant
            i <= accounts@.len(),
            forall|j: int| 0 <= j < i ==> #[trigger] accounts@[j].key != key,
        decreases accounts@.len() - i,
    {
        if accounts[i].key == key {
            return Some(i);
        }
        i = i + 1;
    }
    None
}

/// Index of the metadata record describing the mint at `mint`, if one exists.
pub(crate) fn find_metadata_index(metadata: &Vec<MetadataRecord>, mint: Identity) -> (r: Option<usize>)
    ensures
        match r {
            Some(i) => i < metadata@.len() && metadata@[i as int].mint == mint,
            None => !has_metadata(metadata@, mint),
        },
{
    let mut i: usize = 0;
    while i < metadata.len()
        invariant
            i <= metadata@.len(),
            forall|j: int| 0 <= j < i ==> #[trigger] metadata@[j].mint != mint,
        decreases metadata@.len() - i,
    {
        if metadata[i].mint == mint {
            return Some(i);
        }
        i = i + 1;
    }
    None
}

/// Index of the supply-cap record capping the mint at `mint`, if one exists.
pub(crate) fn find_supply_cap_index(supply_caps: &Vec<SupplyCapRecord>, mint: Identity) -> (r: Option<usize>)
    ensures
        match r {
            Some(i) => i < supply_caps@.len() && supply_caps@[i as int].mint == mint,
            None => !has_supply_cap(supply_caps@, mint),
        },
{
    let mut i: usize = 0;
    while i < supply_caps.len()
        invariant
            i <= supply_caps@.len(),
            forall|j: int| 0 <= j < i ==> #[trigger] supply_caps@[j].mint != mint,
        decreases supply_caps@.len() - i,
    {
        if supply_caps[i].mint == mint {
            return Some(i);
        }
        i = i + 1;
    }
    None
}

/// Issues a new asset as one atomic unit: a mint at `mint_key`, a token
/// account at `account_key` holding the whole starting supply for `owner`, a
/// mutable metadata record, and a supply-cap record that closes further
/// issuance. Fails with `AlreadyExists`, creating nothing, when any of the
/// four target slots is occupied; otherwise all four records exist
/// afterwards and no other record changed.
pub fn initialize(
    store: &mut Ledger,
    mint_key: Identity,
    account_key: Identity,
    name: String,
    symbol: String,
    uri: String,
    owner: Identity,
) -> (res: Result<(), ErrorCode>)
    requires
        old(store).wf(),
    ensures
        final(store).wf(),
        res is Ok <==> {
            &&& !has_mint(old(store).mints@, mint_key)
            &&& !has_account(old(store).accounts@, account_key)
            &&& !has_metadata(old(store).metadata@, mint_key)
            &&& !has_supply_cap(old(store).supply_caps@, mint_key)
        },
        res is Ok ==> {
            &&& final(store).mints@ == old(store).mints@.push(issued_mint(mint_key, owner))
            &&& final(store).accounts@ == old(store).accounts@.push(
                issued_account(account_key, mint_key, owner),
            )
            &&& final(store).metadata@ == old(store).metadata@.push(
                issued_metadata(mint_key, name, symbol, uri, owner),
            )
            &&& final(store).supply_caps@ == old(store).supply_caps@.push(
                issued_supply_cap(mint_key, owner),
            )
        },
        res is Err ==> res == Err::<(), ErrorCode>(ErrorCode::AlreadyExists) && *final(store)
            == *old(store),
{
    let mint_taken = find_mint_index(&store.mints, mint_key).is_some();
    let account_taken = find_account_index(&store.accounts, account_key).is_some();
    let metadata_taken = find_metadata_index(&store.metadata, mint_key).is_some();
    let cap_taken = find_supply_cap_index(&store.supply_caps, mint_key).is_some();
    if mint_taken || account_taken || metadata_taken || cap_taken {
        return Err(ErrorCode::AlreadyExists);
    }
    store.mints.push(
        Mint {
            key: mint_key,
            decimals: DECIMALS,
            mint_authority: Some(owner),
            freeze_authority: Some(owner),
        },
    );
    store.accounts.push(
        TokenAccount {
            key: account_key,
            mint: mint_key,
            owner,
            amount: STARTING_SUPPLY,
            delegate: None,
            delegated_amount: 0,
            frozen: false,
        },
    );
    store.metadata.push(
        MetadataRecord {
            mint: mint_key,
            name,
            symbol,
            uri,
            update_authority: owner,
            is_mutable: true,
        },
    );
    store.supply_caps.push(
        SupplyCapRecord { mint: mint_key, max_supply: Some(0), update_authority: owner },
    );
    Ok(())
}

/// Closes the token account at `account_key`, destroying the record; any
/// backing storage credit goes to the requester, who must be the account's
/// owner. A frozen account rejects close, and the balance is not required to
/// be zero: closing silently discards whatever the account still holds.
pub fn close_account(store: &mut Ledger, account_key: Identity, requester: Identity) -> (res:
    Result<(), ErrorCode>)
    requires
        old(store).wf(),
    ensures
        final(store).wf(),
        final(store).mints@ == old(store).mints@,
        final(store).metadata@ == old(store).metadata@,
        final(store).supply_caps@ == old(store).supply_caps@,
        !has_account(old(store).accounts@, account_key) ==> res == Err::<(), ErrorCode>(
            ErrorCode::NotFound,
        ) && *final(store) == *old(store),
        forall|i: int|
            0 <= i < old(store).accounts@.len() && (#[trigger] old(store).accounts@[i]).key
                == account_key ==> {
                let a = old(store).accounts@[i];
                if a.frozen {
                    res == Err::<(), ErrorCode>(ErrorCode::FrozenAccount) && *final(store) == *old(
                        store,
                    )
                } else if a.owner != requester {
                    res == Err::<(), ErrorCode>(ErrorCode::Unauthorized) && *final(store) == *old(
                        store,
                    )
                } else {
                    res is Ok && final(store).accounts@ == old(store).accounts@.remove(i)
                }
            },
        res is Ok ==> !has_account(final(store).accounts@, account_key),
{
    match find_account_index(&store.accounts, account_key) {
        None => Err(ErrorCode::NotFound),
        Some(i) => {
            let a = store.accounts[i];
            if a.frozen {
                Err(ErrorCode::FrozenAccount)
            } else if a.owner != requester {
                Err(ErrorCode::Unauthorized)
            } else {
                store.accounts.remove(i);
                proof {
                    lemma_unique_keys_close(old(store).accounts@, store.accounts@, i as int);
                }
                Ok(())
            }
        },
    }
}

/// After removing index `i` from a sequence of accounts with unique keys,
/// the keys stay unique and the removed key is gone.
proof fn lemma_unique_keys_close(s: Seq<TokenAccount>, t: Seq<TokenAccount>, i: int)
    requires
        0 <= i < s.len(),
        t == s.remove(i),
        forall|p: int, q: int|
            0 <= p < q < s.len() ==> #[trigger] s[p].key != #[trigger] s[q].key,
    ensures
        forall|p: int, q: int|
            0 <= p < q < t.len() ==> #[trigger] t[p].key != #[trigger] t[q].key,
        !has_account(t, s[i].key),
{
    assert forall|p: int, q: int|
        0 <= p < q < t.len() implies #[trigger] t[p].key != #[trigger] t[q].key by {
        let sp = if p < i { p } else { p + 1 };
        let sq = if q < i { q } else { q + 1 };
        assert(t[p] == s[sp]);
        assert(t[q] == s[sq]);
    }
    assert forall|p: int| 0 <= p < t.len() implies (#[trigger] t[p]).key != s[i].key by {
        let sp = if p < i { p } else { p + 1 };
        assert(t[p] == s[sp]);
    }
}

} // verus!
