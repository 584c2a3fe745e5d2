//! Core of a minimal fungible-asset ledger.
//!
//! The library issues an asset descriptor (a mint) together with its first
//! balance-holding token account, a metadata record and a supply-cap record,
//! and validates and applies the fixed protocol of operations on them:
//! transfer, burn, freeze, thaw, delegate approve and revoke, account close,
//! and authority rotation. Every operation checks the stored authority and
//! lifecycle fields before it mutates anything; on the first failing check it
//! reports one typed error and leaves every record unchanged. The host
//! runtime that authenticates callers, stores the records and serializes
//! calls stays outside this crate.

pub mod authority;
pub mod errors;
pub mod laws;
pub mod ledger;
pub mod model;
pub mod ops;
pub mod records;
