//! The delegated-freeze custody strategy, for non-fungible assets.
//!
//! The asset never leaves the owner's holding account. Locking
//! authorizes the stake position record as a delegate — a capability
//! that can move exactly one unit without taking ownership — and then
//! freezes the holding account in place, so nobody (the owner included)
//! can transfer out of it. Unlocking must thaw before it revokes:
//! only the delegate can thaw, so revoking first would leave the
//! account frozen with no remaining authority able to thaw it. That
//! ordering is enforced here by the preconditions of `thaw_with` and
//! `revoke`.

use vstd::prelude::*;
use crate::addressing::{DerivedAddress, Seeds, SigningCapability, derive_address};
use crate::error::ErrorCode;
use crate::state::{StakeAccount, StakeConfigAccount};
use crate::timelock::{is_unlockable, unlockable};

verus! {

/// The owner's holding account for one non-fungible asset.
#[derive(Clone, Copy, Debug, PartialEq, Eq, Structural)]
pub struct NftHoldingAccount {
    /// The account's owner: the staking participant.
    pub owner: u64,
    /// The held asset's mint identity.
    pub mint: u64,
    /// The delegate currently authorized to move the asset, if any.
    pub delegate: Option<DerivedAddress>,
    /// Whether the account is frozen: no transfers, no revocation.
    pub frozen: bool,
}

/// An assertion, supplied by the non-fungible-token registry, that an
/// asset belongs to a collection. The core only inspects it.
#[derive(Clone, Copy, Debug, PartialEq, Eq, Structural)]
pub struct CollectionProof {
    /// The collection the asset is claimed to belong to.
    pub collection: u64,
    /// Whether the collection's own authority verified the membership.
    pub verified: bool,
}

/// Whether `proof` asserts verified membership of the expected
/// collection.
pub open spec fn collection_proof_ok(proof: CollectionProof, collection_mint: u64) -> bool {
    proof.collection == collection_mint && proof.verified
}

impl NftHoldingAccount {
    /// Authorizes `delegate` to move the held asset. A frozen account
    /// admits no new delegation.
    pub fn approve(&mut self, delegate: DerivedAddress)
        requires
            !old(self).frozen,
        ensures
            *final(self) == (NftHoldingAccount { delegate: Some(delegate), ..*old(self) }),
    {
        self.delegate = Some(delegate);
    }

    /// Freezes the account in place. Only the authorized delegate can
    /// freeze, by signing with the capability for its own address.
    pub fn freeze_with(&mut self, delegate_proof: &SigningCapability)
        requires
            !old(self).frozen,
            old(self).delegate matches Some(d) && delegate_proof.signs_for(d),
        ensures
            *final(self) == (NftHoldingAccount { frozen: true, ..*old(self) }),
    {
        self.frozen = true;
    }

    /// Thaws the account. Only the authorized delegate can thaw; the
    /// delegation itself stays in force.
    pub fn thaw_with(&mut self, delegate_proof: &SigningCapability)
        requires
            old(self).frozen,
            old(self).delegate matches Some(d) && delegate_proof.signs_for(d),
        ensures
            *final(self) == (NftHoldingAccount { frozen: false, ..*old(self) }),
    {
        self.frozen = false;
    }

    /// Withdraws the delegation. The owner can revoke only while the
    /// account is not frozen.
    pub fn revoke(&mut self)
        requires
            !old(self).frozen,
        ensures
            *final(self) == (NftHoldingAccount { delegate: None, ..*old(self) }),
    {
        self.delegate = None;
    }
}

/// Takes custody of the asset in `holding` for the stake position
/// record at `record_address`: checks the collection membership proof,
/// authorizes the record as delegate, then freezes the account.
/// Fails with `InvalidCollection` — changing nothing — unless the proof
/// asserts verified membership of `collection_mint`.
pub fn lock_asset(
    holding: &mut NftHoldingAccount,
    proof: &CollectionProof,
    collection_mint: u64,
    record_address: DerivedAddress,
    record_proof: &SigningCapability,
) -> (r: Result<(), ErrorCode>)
    requires
        !old(holding).frozen,
        record_proof.signs_for(record_address),
    ensures
        r is Ok <==> collection_proof_ok(*proof, collection_mint),
        r is Err ==> r == Err::<(), ErrorCode>(ErrorCode::InvalidCollection) && *final(holding)
            == *old(holding),
        r is Ok ==> *final(holding) == (NftHoldingAccount {
            delegate: Some(record_address),
            frozen: true,
            ..*old(holding)
        }),
{
    if !(proof.collection == collection_mint && proof.verified) {
        return Err(ErrorCode::InvalidCollection);
    }
    holding.approve(record_address);
    holding.freeze_with(record_proof);
    Ok(())
}

/// Releases custody held by `record` over `holding` once the freeze
/// period has elapsed: thaws the account, then revokes the delegation,
/// in that order. Fails with `FreezePeriodNotPassed` — changing
/// nothing — before `record.staked_at + config.min_freeze_period`;
/// elapsed time exactly equal to the period succeeds.
pub fn unlock_asset(
    record: &StakeAccount,
    config: &StakeConfigAccount,
    holding: &mut NftHoldingAccount,
    now: i64,
) -> (r: Result<(), ErrorCode>)
    requires
        record.wf(),
        record.custody_kind is DelegatedFreeze,
        old(holding).frozen,
        old(holding).delegate == Some(record.address),
    ensures
        r is Ok <==> unlockable(record.staked_at, config.min_freeze_period, now),
        r is Err ==> r == Err::<(), ErrorCode>(ErrorCode::FreezePeriodNotPassed) && *final(holding)
            == *old(holding),
        r is Ok ==> *final(holding) == (NftHoldingAccount {
            delegate: None,
            frozen: false,
            ..*old(holding)
        }),
{
    if !is_unlockable(record.staked_at, config.min_freeze_period, now) {
        return Err(ErrorCode::FreezePeriodNotPassed);
    }
    // The record signs the thaw by reconstructing its own seeds.
    let (_, record_proof) = derive_address(
        Seeds::StakeRecord { owner: record.owner, asset: record.mint, seq: record.seed },
    );
    holding.thaw_with(&record_proof);
    holding.revoke();
    Ok(())
}

} // verus!
