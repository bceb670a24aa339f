//! The error taxonomy of the staking ledger.
//!
//! Every failure aborts the whole operation: no partial custody
//! transfer, no partial ledger update, no reward minted without a
//! completed custody change. Nothing is retried internally.

use vstd::prelude::*;

verus! {

/// Why a staking operation was rejected.
#[derive(Clone, Copy, Debug, PartialEq, Eq, Structural)]
pub enum ErrorCode {
    /// The account to be created already exists for this identity.
    AlreadyInitialized,
    /// The collection membership proof is missing or unverified.
    InvalidCollection,
    /// The minimum freeze period has not elapsed since staking.
    FreezePeriodNotPassed,
    /// A checked arithmetic step would wrap.
    Overflow,
    /// The caller does not match the stored authority or owner.
    InvalidAuthority,
}

} // verus!
