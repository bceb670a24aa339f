//! Unstaking a non-fungible token.
//!
//! Once the freeze period has elapsed, custody is reversed — the
//! holding account is thawed, then the delegation revoked — the stake
//! position record is destroyed, and the ledger's staked count is
//! decremented. The whole operation is atomic: any failure leaves
//! every account untouched.

use vstd::prelude::*;
use crate::delegated_freeze;
use crate::delegated_freeze::NftHoldingAccount;
use crate::error::ErrorCode;
use crate::state::{StakeAccount, StakeConfigAccount, UserAccount};
use crate::timelock::{is_unlockable, unlockable};

verus! {

/// The accounts touched when unstaking a non-fungible token.
#[derive(Clone, Copy, Debug, PartialEq, Eq, Structural)]
pub struct UnStakeNFT {
    /// The caller asking for the asset back.
    pub user: u64,
    /// The staked asset's mint identity.
    pub mint: u64,
    /// The participant's holding account for the asset.
    pub mint_ata: NftHoldingAccount,
    /// The stake position record to unwind; destroyed on success.
    pub stake_account: Option<StakeAccount>,
    /// The global configuration registry.
    pub config: StakeConfigAccount,
    /// The participant's ledger.
    pub user_account: UserAccount,
}

impl UnStakeNFT {
    /// The host-validated account relationships: canonical addressing,
    /// a record that matches the asset and holds delegated-freeze
    /// custody, and a holding account frozen under that record's
    /// delegation.
    pub open spec fn wf(&self) -> bool {
        &&& self.config.wf()
        &&& self.mint_ata.owner == self.user
        &&& self.mint_ata.mint == self.mint
        &&& self.stake_account matches Some(record) && {
            &&& record.wf()
            &&& record.custody_kind is DelegatedFreeze
            &&& record.mint == self.mint
            &&& self.mint_ata.frozen
            &&& self.mint_ata.delegate == Some(record.address)
        }
    }
}

/// The successful outcome of `unstake_nft`: the holding account is
/// thawed and un-delegated — the asset is back under the owner's sole
/// control — the record is destroyed, and the ledger counts one fewer
/// staked non-fungible token.
pub open spec fn unstake_nft_transition(pre: UnStakeNFT, post: UnStakeNFT) -> bool {
    &&& post.user == pre.user
    &&& post.mint == pre.mint
    &&& post.config == pre.config
    &&& post.mint_ata == (NftHoldingAccount { delegate: None, frozen: false, ..pre.mint_ata })
    &&& post.stake_account is None
    &&& post.user_account == (UserAccount {
        nft_staked_amount: (pre.user_account.nft_staked_amount - 1) as u64,
        ..pre.user_account
    })
}

impl UnStakeNFT {
    /// Unstakes the non-fungible token: enforces the time lock, thaws
    /// the holding account and revokes the delegation (in that order),
    /// destroys the stake position record, and decrements the ledger.
    /// Fails — changing nothing — with `InvalidAuthority` when the
    /// caller is not the record's owner, with `FreezePeriodNotPassed`
    /// before `staked_at + min_freeze_period` (elapsed time exactly
    /// equal to the period succeeds), and with `Overflow` when the
    /// staked count would underflow.
    pub fn unstake_nft(&mut self, now: i64) -> (r: Result<(), ErrorCode>)
        requires
            old(self).wf(),
        ensures
            ({
                let record = old(self).stake_account->Some_0;
                &&& r is Ok <==> old(self).user == record.owner && unlockable(
                    record.staked_at,
                    old(self).config.min_freeze_period,
                    now,
                ) && old(self).user_account.nft_staked_amount >= 1
                &&& old(self).user != record.owner ==> r == Err::<(), ErrorCode>(
                    ErrorCode::InvalidAuthority,
                )
                &&& old(self).user == record.owner && !unlockable(
                    record.staked_at,
                    old(self).config.min_freeze_period,
                    now,
                ) ==> r == Err::<(), ErrorCode>(ErrorCode::FreezePeriodNotPassed)
                &&& old(self).user == record.owner && unlockable(
                    record.staked_at,
                    old(self).config.min_freeze_period,
                    now,
                ) && old(self).user_account.nft_staked_amount == 0 ==> r == Err::<(), ErrorCode>(
                    ErrorCode::Overflow,
                )
            }),
            r is Err ==> *final(self) == *old(self),
            r is Ok ==> unstake_nft_transition(*old(self), *final(self)),
    {
        let record = match self.stake_account {
            Some(record) => record,
            None => {
                return Err(ErrorCode::InvalidAuthority);
            },
        };
        if self.user != record.owner {
            return Err(ErrorCode::InvalidAuthority);
        }
        if !is_unlockable(record.staked_at, self.config.min_freeze_period, now) {
            return Err(ErrorCode::FreezePeriodNotPassed);
        }
        // Check the counter before touching custody, so an underflow
        // cannot leave a partial state change.
        let new_count = match self.user_account.nft_staked_amount.checked_sub(1) {
            Some(c) => c,
            None => {
                return Err(ErrorCode::Overflow);
            },
        };
        match delegated_freeze::unlock_asset(&record, &self.config, &mut self.mint_ata, now) {
            Ok(()) => {},
            Err(e) => {
                return Err(e);
            },
        }
        self.user_account.nft_staked_amount = new_count;
        self.stake_account = None;
        Ok(())
    }
}

} // verus!
