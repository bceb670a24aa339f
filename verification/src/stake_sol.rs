//! Staking the native coin.
//!
//! The staked amount is moved into a vault-escrow account owned by the
//! new stake position record, a reward of `points_per_sol_stake` points
//! per staked unit is computed and minted at stake time (the
//! amount-proportional policy: no further reward accrues at unstake),
//! and the participant's ledger is updated. The whole operation is
//! atomic: any failure leaves every account untouched.

use vstd::prelude::*;
use crate::addressing::{Seeds, derive_address, config_address, stake_record_address, vault_address};
use crate::error::ErrorCode;
use crate::rewards::{AssetClass, RewardMint, compute_reward, mint_overflows, mint_to, reward_amount};
use crate::state::{CustodyKind, NATIVE_MINT, StakeAccount, StakeConfigAccount, UserAccount};
use crate::vault_escrow;
use crate::vault_escrow::VaultAccount;

verus! {

/// The accounts touched when staking the native coin.
#[derive(Clone, Copy, Debug, PartialEq, Eq, Structural)]
pub struct StakeSol {
    /// The staking participant (the signing caller).
    pub user: u64,
    /// The participant's native-coin balance.
    pub user_lamports: u64,
    /// The reward-token mint.
    pub reward_mint: RewardMint,
    /// The participant's reward-token balance.
    pub user_reward_ata: u64,
    /// The stake position record's slot: `None` until this stake exists.
    pub stake_account: Option<StakeAccount>,
    /// The escrow vault's slot, created together with the record.
    pub vault: Option<VaultAccount>,
    /// The global configuration registry.
    pub config: StakeConfigAccount,
    /// The participant's ledger.
    pub user_account: UserAccount,
}

impl StakeSol {
    /// The host-validated account relationships: canonical addressing,
    /// and no orphaned vault without its record.
    pub open spec fn wf(&self) -> bool {
        &&& self.config.wf()
        &&& self.reward_mint.wf()
        &&& self.stake_account is None ==> self.vault is None
    }
}

/// Whether staking `amount` native units would wrap the reward
/// computation, a ledger counter, the mint supply, or the participant's
/// reward balance.
pub open spec fn sol_stake_overflows(s: StakeSol, amount: u64) -> bool {
    let reward = reward_amount(s.config, AssetClass::Native, amount);
    ||| reward > u64::MAX
    ||| s.user_account.points + reward > u64::MAX
    ||| s.user_account.sol_staked_amount + amount > u64::MAX
    ||| s.reward_mint.supply + reward > u64::MAX
    ||| s.user_reward_ata + reward > u64::MAX
}

/// The successful outcome of `stake_sol`: `amount` has moved from the
/// participant into a fresh escrow vault owned by the new record, the
/// amount-proportional reward has been minted, and the ledger counts
/// `amount` more staked native units.
pub open spec fn stake_sol_transition(
    pre: StakeSol,
    post: StakeSol,
    seed: u64,
    amount: u64,
    now: i64,
) -> bool {
    let reward = reward_amount(pre.config, AssetClass::Native, amount);
    let record_address = stake_record_address(pre.user, NATIVE_MINT, seed);
    &&& post.user == pre.user
    &&& post.config == pre.config
    &&& post.user_lamports == pre.user_lamports - amount
    &&& post.stake_account == Some(
        StakeAccount {
            owner: pre.user,
            mint: NATIVE_MINT,
            seed,
            staked_at: now,
            custody_kind: CustodyKind::VaultEscrow,
            address: record_address,
        },
    )
    &&& post.vault == Some(
        VaultAccount {
            address: vault_address(pre.user, NATIVE_MINT, seed),
            authority: record_address,
            balance: amount,
        },
    )
    &&& post.reward_mint == (RewardMint {
        supply: (pre.reward_mint.supply + reward) as u64,
        ..pre.reward_mint
    })
    &&& post.user_reward_ata == pre.user_reward_ata + reward
    &&& post.user_account == (UserAccount {
        points: (pre.user_account.points + reward) as u64,
        sol_staked_amount: (pre.user_account.sol_staked_amount + amount) as u64,
        ..pre.user_account
    })
}

impl StakeSol {
    /// Stakes `amount` native units: escrows them in a fresh vault
    /// owned by the new stake position record stamped `now`, mints the
    /// amount-proportional reward, and updates the ledger. Fails —
    /// changing nothing — with `AlreadyInitialized` when a record for
    /// this stake identity exists, and with `Overflow` when the reward
    /// computation or a counter would wrap.
    pub fn stake_sol(&mut self, seed: u64, amount: u64, now: i64) -> (r: Result<(), ErrorCode>)
        requires
            old(self).wf(),
            amount > 0,
            amount <= old(self).user_lamports,
        ensures
            r is Ok <==> old(self).stake_account is None && !sol_stake_overflows(
                *old(self),
                amount,
            ),
            old(self).stake_account is Some ==> r == Err::<(), ErrorCode>(
                ErrorCode::AlreadyInitialized,
            ),
            old(self).stake_account is None && sol_stake_overflows(*old(self), amount) ==> r
                == Err::<(), ErrorCode>(ErrorCode::Overflow),
            r is Err ==> *final(self) == *old(self),
            r is Ok ==> stake_sol_transition(*old(self), *final(self), seed, amount, now),
    {
        if self.stake_account.is_some() {
            return Err(ErrorCode::AlreadyInitialized);
        }
        let reward = match compute_reward(&self.config, AssetClass::Native, amount) {
            Ok(amount) => amount,
            Err(e) => {
                return Err(e);
            },
        };
        // Check every counter before touching any account, so a late
        // overflow cannot leave a partial state change.
        let new_points = match self.user_account.points.checked_add(reward) {
            Some(p) => p,
            None => {
                return Err(ErrorCode::Overflow);
            },
        };
        let new_staked = match self.user_account.sol_staked_amount.checked_add(amount) {
            Some(s) => s,
            None => {
                return Err(ErrorCode::Overflow);
            },
        };
        if self.reward_mint.supply.checked_add(reward).is_none() {
            return Err(ErrorCode::Overflow);
        }
        if self.user_reward_ata.checked_add(reward).is_none() {
            return Err(ErrorCode::Overflow);
        }
        let (record_address, _) = derive_address(
            Seeds::StakeRecord { owner: self.user, asset: NATIVE_MINT, seq: seed },
        );
        let (vault_addr, _) = derive_address(
            Seeds::Vault { owner: self.user, asset: NATIVE_MINT, seq: seed },
        );
        vault_escrow::lock_asset(
            &mut self.user_lamports,
            &mut self.vault,
            vault_addr,
            record_address,
            amount,
        );
        self.stake_account = Some(
            StakeAccount {
                owner: self.user,
                mint: NATIVE_MINT,
                seed,
                staked_at: now,
                custody_kind: CustodyKind::VaultEscrow,
                address: record_address,
            },
        );
        match self.reward_user(reward) {
            Ok(()) => {},
            Err(e) => {
                return Err(e);
            },
        }
        self.user_account.points = new_points;
        self.user_account.sol_staked_amount = new_staked;
        Ok(())
    }

    /// Mints `amount` reward tokens to the participant, with the
    /// configuration registry signing as the mint's authority through
    /// its reconstructed seeds. Fails — changing nothing — with
    /// `InvalidAuthority` when the mint is not controlled by the
    /// registry, and with `Overflow` when the supply or the balance
    /// would wrap.
    pub fn reward_user(&mut self, amount: u64) -> (r: Result<(), ErrorCode>)
        ensures
            r is Ok <==> old(self).reward_mint.authority == config_address() && !mint_overflows(
                old(self).reward_mint,
                old(self).user_reward_ata,
                amount,
            ),
            r is Err ==> *final(self) == *old(self),
            old(self).reward_mint.authority != config_address() ==> r == Err::<(), ErrorCode>(
                ErrorCode::InvalidAuthority,
            ),
            old(self).reward_mint.authority == config_address() && mint_overflows(
                old(self).reward_mint,
                old(self).user_reward_ata,
                amount,
            ) ==> r == Err::<(), ErrorCode>(ErrorCode::Overflow),
            r is Ok ==> *final(self) == (StakeSol {
                reward_mint: (RewardMint {
                    supply: (old(self).reward_mint.supply + amount) as u64,
                    ..old(self).reward_mint
                }),
                user_reward_ata: (old(self).user_reward_ata + amount) as u64,
                ..*old(self)
            }),
    {
        let (_, authority_proof) = derive_address(Seeds::Config);
        mint_to(&mut self.reward_mint, &authority_proof, &mut self.user_reward_ata, amount)
    }
}

} // verus!
