//! Unstaking the native coin.
//!
//! Once the freeze period has elapsed, the full vault balance moves
//! back to the participant — signed by the stake position record's
//! derived-address authority, with no owner key on the release side —
//! the record is destroyed, and the ledger's staked amount drops by the
//! amount returned. Rewards for native stakes were already minted at
//! stake time; none accrue here. The emptied vault is a plain
//! value-holding account and stays behind with a zero balance. The
//! whole operation is atomic: any failure leaves every account
//! untouched.

use vstd::prelude::*;
use crate::error::ErrorCode;
use crate::state::{NATIVE_MINT, StakeAccount, StakeConfigAccount, UserAccount};
use crate::timelock::{is_unlockable, unlockable};
use crate::vault_escrow;
use crate::vault_escrow::VaultAccount;

verus! {

/// The accounts touched when unstaking the native coin.
#[derive(Clone, Copy, Debug, PartialEq, Eq, Structural)]
pub struct UnStakeSOl {
    /// The caller asking for the escrowed units back.
    pub user: u64,
    /// The participant's native-coin balance.
    pub user_lamports: u64,
    /// The stake position record to unwind; destroyed on success.
    pub stake_account: Option<StakeAccount>,
    /// The escrow vault holding the staked units.
    pub vault: Option<VaultAccount>,
    /// The global configuration registry.
    pub config: StakeConfigAccount,
    /// The participant's ledger.
    pub user_account: UserAccount,
}

impl UnStakeSOl {
    /// The host-validated account relationships: canonical addressing,
    /// a native-coin record in vault-escrow custody, and a vault owned
    /// by that record.
    pub open spec fn wf(&self) -> bool {
        &&& self.config.wf()
        &&& self.stake_account matches Some(record) && {
            &&& record.wf()
            &&& record.custody_kind is VaultEscrow
            &&& record.mint == NATIVE_MINT
            &&& self.vault matches Some(v) && v.authority == record.address
        }
    }
}

/// The successful outcome of `unstake_sol`: the full escrowed balance
/// is back with the participant, the vault is empty, the record is
/// destroyed, and the ledger counts that many fewer staked native
/// units.
pub open spec fn unstake_sol_transition(pre: UnStakeSOl, post: UnStakeSOl) -> bool {
    let escrowed = pre.vault->Some_0.balance;
    &&& post.user == pre.user
    &&& post.config == pre.config
    &&& post.user_lamports == pre.user_lamports + escrowed
    &&& post.stake_account is None
    &&& post.vault == Some(VaultAccount { balance: 0, ..pre.vault->Some_0 })
    &&& post.user_account == (UserAccount {
        sol_staked_amount: (pre.user_account.sol_staked_amount - escrowed) as u64,
        ..pre.user_account
    })
}

impl UnStakeSOl {
    /// Unstakes the native coin: enforces the time lock, returns the
    /// full vault balance to the participant, destroys the stake
    /// position record, and decrements the ledger by the amount
    /// returned. Fails — changing nothing — with `InvalidAuthority`
    /// when the caller is not the record's owner, with
    /// `FreezePeriodNotPassed` before `staked_at + min_freeze_period`
    /// (elapsed time exactly equal to the period succeeds), and with
    /// `Overflow` when the participant's balance or the staked counter
    /// would wrap.
    pub fn unstake_sol(&mut self, now: i64) -> (r: Result<(), ErrorCode>)
        requires
            old(self).wf(),
        ensures
            ({
                let record = old(self).stake_account->Some_0;
                let escrowed = old(self).vault->Some_0.balance;
                &&& r is Ok <==> old(self).user == record.owner && unlockable(
                    record.staked_at,
                    old(self).config.min_freeze_period,
                    now,
                ) && old(self).user_account.sol_staked_amount >= escrowed && old(
                    self,
                ).user_lamports + escrowed <= u64::MAX
                &&& old(self).user != record.owner ==> r == Err::<(), ErrorCode>(
                    ErrorCode::InvalidAuthority,
                )
                &&& old(self).user == record.owner && !unlockable(
                    record.staked_at,
                    old(self).config.min_freeze_period,
                    now,
                ) ==> r == Err::<(), ErrorCode>(ErrorCode::FreezePeriodNotPassed)
                &&& old(self).user == record.owner && unlockable(
                    record.staked_at,
                    old(self).config.min_freeze_period,
                    now,
                ) && (old(self).user_account.sol_staked_amount < escrowed || old(
                    self,
                ).user_lamports + escrowed > u64::MAX) ==> r == Err::<(), ErrorCode>(
                    ErrorCode::Overflow,
                )
            }),
            r is Err ==> *final(self) == *old(self),
            r is Ok ==> unstake_sol_transition(*old(self), *final(self)),
    {
        let record = match self.stake_account {
            Some(record) => record,
            None => {
                return Err(ErrorCode::InvalidAuthority);
            },
        };
        if self.user != record.owner {
            return Err(ErrorCode::InvalidAuthority);
        }
        if !is_unlockable(record.staked_at, self.config.min_freeze_period, now) {
            return Err(ErrorCode::FreezePeriodNotPassed);
        }
        let mut vault = match self.vault {
            Some(v) => v,
            None => {
                return Err(ErrorCode::InvalidAuthority);
            },
        };
        // Check both counters before touching custody, so a late
        // failure cannot leave a partial state change.
        let new_staked = match self.user_account.sol_staked_amount.checked_sub(vault.balance) {
            Some(s) => s,
            None => {
                return Err(ErrorCode::Overflow);
            },
        };
        if self.user_lamports.checked_add(vault.balance).is_none() {
            return Err(ErrorCode::Overflow);
        }
        match vault_escrow::unlock_asset(&record, &self.config, &mut vault, &mut self.user_lamports, now) {
            Ok(_) => {},
            Err(e) => {
                return Err(e);
            },
        }
        self.vault = Some(vault);
        self.user_account.sol_staked_amount = new_staked;
        self.stake_account = None;
        Ok(())
    }
}

} // verus!
