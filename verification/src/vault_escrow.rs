//! The vault-escrow custody strategy, for fungible and native assets.
//!
//! Locking moves the staked amount out of the owner's holding account
//! into a vault whose address is derived from the stake position
//! record's own identity, so only that record's logic can later
//! authorize moving funds out. Unlocking moves the full vault balance
//! back, signed by the record's derived-address authority — no owner
//! private key is needed on the release side. A fungible vault is
//! additionally closed once empty, releasing its storage deposit.

use vstd::prelude::*;
use crate::addressing::{DerivedAddress, Seeds, SigningCapability, derive_address};
use crate::error::ErrorCode;
use crate::state::{StakeAccount, StakeConfigAccount};
use crate::timelock::{is_unlockable, unlockable};

verus! {

/// A program-owned holding account escrowing one stake's principal.
#[derive(Clone, Copy, Debug, PartialEq, Eq, Structural)]
pub struct VaultAccount {
    /// The vault's own derived address.
    pub address: DerivedAddress,
    /// Who may move funds out: the owning stake position record.
    pub authority: DerivedAddress,
    /// The escrowed amount.
    pub balance: u64,
}

impl VaultAccount {
    /// Moves the vault's whole balance to `dest_balance`. Only the
    /// vault's authority can withdraw, by signing with the capability
    /// for its own address; the destination must have room.
    pub fn withdraw_all(
        &mut self,
        authority_proof: &SigningCapability,
        dest_balance: &mut u64,
    ) -> (withdrawn: u64)
        requires
            authority_proof.signs_for(old(self).authority),
            old(dest_balance) + old(self).balance <= u64::MAX,
        ensures
            withdrawn == old(self).balance,
            *final(self) == (VaultAccount { balance: 0, ..*old(self) }),
            *final(dest_balance) == old(dest_balance) + old(self).balance,
    {
        let withdrawn = self.balance;
        *dest_balance = *dest_balance + withdrawn;
        self.balance = 0;
        withdrawn
    }
}

/// Takes custody of `amount` for the stake position record with
/// authority `record_address`: moves `amount` from `source_balance`
/// into a fresh vault at `vault_addr`, created in `vault_slot`.
pub fn lock_asset(
    source_balance: &mut u64,
    vault_slot: &mut Option<VaultAccount>,
    vault_addr: DerivedAddress,
    record_address: DerivedAddress,
    amount: u64,
)
    requires
        amount > 0,
        amount <= *old(source_balance),
        *old(vault_slot) is None,
    ensures
        *final(source_balance) == *old(source_balance) - amount,
        *final(vault_slot) == Some(
            VaultAccount { address: vault_addr, authority: record_address, balance: amount },
        ),
{
    *source_balance = *source_balance - amount;
    *vault_slot = Some(VaultAccount { address: vault_addr, authority: record_address, balance: amount });
}

/// Releases the escrow held by `record` once the freeze period has
/// elapsed: moves the full vault balance back to `dest_balance`, signed
/// by the record's reconstructed seeds, and returns the amount moved.
/// Fails with `FreezePeriodNotPassed` — changing nothing — before
/// `record.staked_at + config.min_freeze_period` (elapsed time exactly
/// equal to the period succeeds), and with `Overflow` when the
/// destination balance would wrap.
pub fn unlock_asset(
    record: &StakeAccount,
    config: &StakeConfigAccount,
    vault: &mut VaultAccount,
    dest_balance: &mut u64,
    now: i64,
) -> (r: Result<u64, ErrorCode>)
    requires
        record.wf(),
        record.custody_kind is VaultEscrow,
        old(vault).authority == record.address,
    ensures
        r is Ok <==> unlockable(record.staked_at, config.min_freeze_period, now) && old(
            dest_balance,
        ) + old(vault).balance <= u64::MAX,
        !unlockable(record.staked_at, config.min_freeze_period, now) ==> r == Err::<
            u64,
            ErrorCode,
        >(ErrorCode::FreezePeriodNotPassed),
        unlockable(record.staked_at, config.min_freeze_period, now) && old(dest_balance) + old(
            vault,
        ).balance > u64::MAX ==> r == Err::<u64, ErrorCode>(ErrorCode::Overflow),
        r is Err ==> *final(vault) == *old(vault) && *final(dest_balance) == *old(dest_balance),
        r is Ok ==> r == Ok::<u64, ErrorCode>(old(vault).balance) && *final(vault)
            == (VaultAccount { balance: 0, ..*old(vault) }) && *final(dest_balance) == old(
            dest_balance,
        ) + old(vault).balance,
{
    if !is_unlockable(record.staked_at, config.min_freeze_period, now) {
        return Err(ErrorCode::FreezePeriodNotPassed);
    }
    if dest_balance.checked_add(vault.balance).is_none() {
        return Err(ErrorCode::Overflow);
    }
    // The record signs the release by reconstructing its own seeds.
    let (_, record_proof) = derive_address(
        Seeds::StakeRecord { owner: record.owner, asset: record.mint, seq: record.seed },
    );
    let withdrawn = vault.withdraw_all(&record_proof, dest_balance);
    Ok(withdrawn)
}

/// Reclaims an emptied vault, destroying the account and releasing its
/// storage deposit to the owner. Only the vault's authority can close
/// it, and only once its balance is zero.
pub fn close_vault(vault_slot: &mut Option<VaultAccount>, authority_proof: &SigningCapability)
    requires
        *old(vault_slot) matches Some(v) && v.balance == 0 && authority_proof.signs_for(
            v.authority,
        ),
    ensures
        *final(vault_slot) is None,
{
    *vault_slot = None;
}

} // verus!
