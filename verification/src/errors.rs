//! The fixed error taxonomy. Every validation failure surfaces as exactly
//! one of these kinds, and every error is a terminal rejection of the single
//! requested operation: nothing was mutated and nothing is retried here.

use vstd::prelude::*;

verus! {

/// Why an operation was rejected.
#[derive(Clone, Copy, PartialEq, Eq, Structural, Debug)]
pub enum ErrorCode {
    /// The requesting identity does not match the required owner or the
    /// current holder of the required authority.
    Unauthorized,
    /// The referenced authority field is absent, the target record is no
    /// longer mutable, or no authority can be cleared where one is required.
    InvalidAuthority,
    /// A mutating operation was attempted on a frozen token account.
    FrozenAccount,
    /// The balance is insufficient for the requested decrease.
    InsufficientFunds,
    /// Two records referenced in one operation disagree on the mint.
    MintMismatch,
    /// Issuance was attempted against an already-populated record slot.
    AlreadyExists,
    /// The referenced record does not exist.
    NotFound,
}

impl ErrorCode {
    /// The diagnostic name of each error kind.
    pub open spec fn description(self) -> Seq<char> {
        match self {
            ErrorCode::Unauthorized => "unauthorized"@,
            ErrorCode::InvalidAuthority => "invalid authority"@,
            ErrorCode::FrozenAccount => "frozen account"@,
            ErrorCode::InsufficientFunds => "insufficient funds"@,
            ErrorCode::MintMismatch => "mint mismatch"@,
            ErrorCode::AlreadyExists => "already exists"@,
            ErrorCode::NotFound => "not found"@,
        }
    }

    /// Short diagnostic name of the error kind, distinct for each kind.
    pub fn describe(&self) -> (r: &'static str)
        ensures
            r@ == self.description(),
    {
        proof {
            reveal_strlit("unauthorized");
            reveal_strlit("invalid authority");
            reveal_strlit("frozen account");
            reveal_strlit("insufficient funds");
            reveal_strlit("mint mismatch");
            reveal_strlit("already exists");
            reveal_strlit("not found");
        }
        match self {
            ErrorCode::Unauthorized => "unauthorized",
            ErrorCode::InvalidAuthority => "invalid authority",
            ErrorCode::FrozenAccount => "frozen account",
            ErrorCode::InsufficientFunds => "insufficient funds",
            ErrorCode::MintMismatch => "mint mismatch",
            ErrorCode::AlreadyExists => "already exists",
            ErrorCode::NotFound => "not found",
        }
    }
}

} // verus!
