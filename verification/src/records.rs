//! The four record kinds of the ledger and the identities that own them.

use vstd::prelude::*;

verus! {

/// Balance the first token account of an asset starts with at issuance.
pub const STARTING_SUPPLY: u64 = 1_000_000_000;

/// Decimal precision given to every issued mint.
pub const DECIMALS: u8 = 9;

/// An identity in the host's single key space. Owners, authorities and
/// record addresses are all drawn from it, as the host's addresses are.
#[derive(Clone, Copy, PartialEq, Eq, Structural, Debug)]
pub struct Identity {
    pub id: u64,
}

/// Descriptor of one issuable asset. A cleared (absent) mint authority means
/// issuance is permanently closed and can never be reinstated.
#[derive(Clone, Copy, PartialEq, Eq, Debug)]
pub struct Mint {
    /// Address of this record.
    pub key: Identity,
    /// Decimal precision of the asset.
    pub decimals: u8,
    /// Identity allowed to issue further units; absent once cleared.
    pub mint_authority: Option<Identity>,
    /// Identity allowed to freeze and thaw token accounts of this mint.
    pub freeze_authority: Option<Identity>,
}

/// Balance-holding record: the units of one mint held by one owner.
#[derive(Clone, Copy, PartialEq, Eq, Debug)]
pub struct TokenAccount {
    /// Address of this record.
    pub key: Identity,
    /// Address of the mint whose units this account holds.
    pub mint: Identity,
    /// Identity that may move, burn and delegate this balance.
    pub owner: Identity,
    /// Current balance.
    pub amount: u64,
    /// Delegate identity, when the owner has approved one.
    pub delegate: Option<Identity>,
    /// Spending ceiling granted to the delegate; may exceed the balance.
    pub delegated_amount: u64,
    /// A frozen account rejects transfer, burn, approve and close, and
    /// accepts only thaw.
    pub frozen: bool,
}

/// Descriptive data attached to a mint. Once `is_mutable` is false no field
/// may change again, the flag itself included.
#[derive(Clone, PartialEq, Eq, Debug)]
pub struct MetadataRecord {
    /// Address of the mint this record describes.
    pub mint: Identity,
    /// Human-readable asset name.
    pub name: String,
    /// Short ticker symbol.
    pub symbol: String,
    /// Locator string for off-ledger descriptive content.
    pub uri: String,
    /// Identity allowed to update this record while it is mutable.
    pub update_authority: Identity,
    /// Whether the record may still be changed.
    pub is_mutable: bool,
}

/// Cap on the total issuable units of a mint.
#[derive(Clone, Copy, PartialEq, Eq, Debug)]
pub struct SupplyCapRecord {
    /// Address of the mint this record caps.
    pub mint: Identity,
    /// Maximum further issuable units; `Some(0)` means no further issuance.
    pub max_supply: Option<u64>,
    /// Identity allowed to update this record.
    pub update_authority: Identity,
}

/// The authority fields that `set_authority` can rotate.
#[derive(Clone, Copy, PartialEq, Eq, Structural, Debug)]
pub enum AuthorityKind {
    /// The mint's issuing authority.
    MintAuthority,
    /// The mint's freeze/thaw authority.
    FreezeAuthority,
    /// The update authority of the mint's metadata record.
    MetadataUpdateAuthority,
    /// The update authority of the mint's supply-cap record.
    SupplyCapAuthority,
}

} // verus!
