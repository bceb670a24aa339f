//! Unstaking fungible tokens.
//!
//! Once the freeze period has elapsed, the full vault balance moves
//! back to the participant's token account — signed by the stake
//! position record's derived-address authority — the now-empty vault is
//! closed (its storage deposit released to the owner), the record is
//! destroyed, and the ledger's staked amount is reconciled downward by
//! the amount returned: this crate increments the fungible counter at
//! stake time and decrements it at unstake time. Rewards for fungible
//! stakes were already minted at stake time; none accrue here. The
//! whole operation is atomic: any failure leaves every account
//! untouched.

use vstd::prelude::*;
use crate::addressing::{Seeds, derive_address};
use crate::error::ErrorCode;
use crate::state::{StakeAccount, StakeConfigAccount, UserAccount};
use crate::timelock::{is_unlockable, unlockable};
use crate::vault_escrow;
use crate::vault_escrow::VaultAccount;

verus! {

/// The accounts touched when unstaking fungible tokens.
#[derive(Clone, Copy, Debug, PartialEq, Eq, Structural)]
pub struct UnStakeSpL {
    /// The caller asking for the escrowed units back.
    pub user: u64,
    /// The staked token's mint identity.
    pub mint: u64,
    /// The participant's balance of the staked token.
    pub mint_ata: u64,
    /// The stake position record to unwind; destroyed on success.
    pub stake_account: Option<StakeAccount>,
    /// The escrow vault holding the staked units; closed on success.
    pub vault_ata: Option<VaultAccount>,
    /// The global configuration registry.
    pub config: StakeConfigAccount,
    /// The participant's ledger.
    pub user_account: UserAccount,
}

impl UnStakeSpL {
    /// The host-validated account relationships: canonical addressing,
    /// a record in vault-escrow custody over this token, and a vault
    /// owned by that record.
    pub open spec fn wf(&self) -> bool {
        &&& self.config.wf()
        &&& self.stake_account matches Some(record) && {
            &&& record.wf()
            &&& record.custody_kind is VaultEscrow
            &&& record.mint == self.mint
            &&& self.vault_ata matches Some(v) && v.authority == record.address
        }
    }
}

/// The successful outcome of `unstake_spl`: the full escrowed balance
/// is back in the participant's token account, the vault is closed, the
/// record is destroyed, and the ledger counts that many fewer staked
/// fungible units.
pub open spec fn unstake_spl_transition(pre: UnStakeSpL, post: UnStakeSpL) -> bool {
    let escrowed = pre.vault_ata->Some_0.balance;
    &&& post.user == pre.user
    &&& post.mint == pre.mint
    &&& post.config == pre.config
    &&& post.mint_ata == pre.mint_ata + escrowed
    &&& post.stake_account is None
    &&& post.vault_ata is None
    &&& post.user_account == (UserAccount {
        spl_staked_amount: (pre.user_account.spl_staked_amount - escrowed) as u64,
        ..pre.user_account
    })
}

impl UnStakeSpL {
    /// Unstakes the fungible tokens: enforces the time lock, returns
    /// the full vault balance to the participant's token account,
    /// closes the emptied vault, destroys the stake position record,
    /// and reconciles the ledger downward by the amount returned.
    /// Fails — changing nothing — with `InvalidAuthority` when the
    /// caller is not the record's owner, with `FreezePeriodNotPassed`
    /// before `staked_at + min_freeze_period` (elapsed time exactly
    /// equal to the period succeeds), and with `Overflow` when the
    /// participant's balance or the staked counter would wrap.
    pub fn unstake_spl(&mut self, now: i64) -> (r: Result<(), ErrorCode>)
        requires
            old(self).wf(),
        ensures
            ({
                let record = old(self).stake_account->Some_0;
                let escrowed = old(self).vault_ata->Some_0.balance;
                &&& r is Ok <==> old(self).user == record.owner && unlockable(
                    record.staked_at,
                    old(self).config.min_freeze_period,
                    now,
                ) && old(self).user_account.spl_staked_amount >= escrowed && old(self).mint_ata
                    + escrowed <= u64::MAX
                &&& old(self).user != record.owner ==> r == Err::<(), ErrorCode>(
                    ErrorCode::InvalidAuthority,
                )
                &&& old(self).user == record.owner && !unlockable(
                    record.staked_at,
                    old(self).config.min_freeze_period,
                    now,
                ) ==> r == Err::<(), ErrorCode>(ErrorCode::FreezePeriodNotPassed)
                &&& old(self).user == record.owner && unlockable(
                    record.staked_at,
                    old(self).config.min_freeze_period,
                    now,
                ) && (old(self).user_account.spl_staked_amount < escrowed || old(self).mint_ata
                    + escrowed > u64::MAX) ==> r == Err::<(), ErrorCode>(ErrorCode::Overflow)
            }),
            r is Err ==> *final(self) == *old(self),
            r is Ok ==> unstake_spl_transition(*old(self), *final(self)),
    {
        let record = match self.stake_account {
            Some(record) => record,
            None => {
                return Err(ErrorCode::InvalidAuthority);
            },
        };
        if self.user != record.owner {
            return Err(ErrorCode::InvalidAuthority);
        }
        if !is_unlockable(record.staked_at, self.config.min_freeze_period, now) {
            return Err(ErrorCode::FreezePeriodNotPassed);
        }
        let mut vault = match self.vault_ata {
            Some(v) => v,
            None => {
                return Err(ErrorCode::InvalidAuthority);
            },
        };
        // Check both counters before touching custody, so a late
        // failure cannot leave a partial state change.
        let new_staked = match self.user_account.spl_staked_amount.checked_sub(vault.balance) {
            Some(s) => s,
            None => {
                return Err(ErrorCode::Overflow);
            },
        };
        if self.mint_ata.checked_add(vault.balance).is_none() {
            return Err(ErrorCode::Overflow);
        }
        match vault_escrow::unlock_asset(&record, &self.config, &mut vault, &mut self.mint_ata, now) {
            Ok(_) => {},
            Err(e) => {
                return Err(e);
            },
        }
        self.vault_ata = Some(vault);
        // The record signs the close by reconstructing its own seeds.
        let (_, record_proof) = derive_address(
            Seeds::StakeRecord { owner: record.owner, asset: record.mint, seq: record.seed },
        );
        vault_escrow::close_vault(&mut self.vault_ata, &record_proof);
        self.user_account.spl_staked_amount = new_staked;
        self.stake_account = None;
        Ok(())
    }
}

} // verus!
