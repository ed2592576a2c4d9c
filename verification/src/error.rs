//! The error taxonomy. Every error is terminal for the operation that raised
//! it: the operation leaves the store exactly as it found it.

use vstd::prelude::*;

verus! {

/// Why an operation was refused.
#[derive(Clone, Copy, PartialEq, Eq, Structural, Debug)]
pub enum VestingError {
    /// The caller is neither the global owner nor the project's owner.
    Unauthorized,
    /// The named project does not exist.
    NotFound,
    /// A project with the same identifier already exists.
    DuplicateProject,
    /// A claim found nothing to release.
    NoPendingTokens,
    /// The external token ledger lacks the funds to honor a claim.
    InsufficientBalance,
    /// A supplied value is unusable: a schedule with a zero-length linear
    /// phase or an out-of-range percentage, a parameter list that is not one
    /// entry per stage, or an amount too large for the token's smallest unit.
    InvalidParameter,
}

impl VestingError {
    /// The error's name, for a host that reports it as text.
    pub fn describe(&self) -> (r: &'static str)
        ensures
            r@ == self.spec_describe(),
    {
        match self {
            VestingError::Unauthorized => "unauthorized",
            VestingError::NotFound => "project not found",
            VestingError::DuplicateProject => "duplicate project",
            VestingError::NoPendingTokens => "no pending tokens to claim",
            VestingError::InsufficientBalance => "insufficient balance on the token ledger",
            VestingError::InvalidParameter => "invalid parameter",
        }
    }

    /// What [`Self::describe`] returns for each variant.
    pub open spec fn spec_describe(self) -> Seq<char> {
        match self {
            VestingError::Unauthorized => "unauthorized"@,
            VestingError::NotFound => "project not found"@,
            VestingError::DuplicateProject => "duplicate project"@,
            VestingError::NoPendingTokens => "no pending tokens to claim"@,
            VestingError::InsufficientBalance => "insufficient balance on the token ledger"@,
            VestingError::InvalidParameter => "invalid parameter"@,
        }
    }
}

} // verus!
