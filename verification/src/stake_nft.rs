//! Staking a non-fungible token.
//!
//! The asset is taken into delegated-freeze custody, a stake position
//! record is created, a flat reward of `points_per_nft_stake` points
//! (scaled by the reward mint's six decimals) is minted, and the
//! participant's ledger is updated. The whole operation is atomic: any
//! failure leaves every account untouched.

use vstd::prelude::*;
use crate::addressing::{Seeds, derive_address, config_address, stake_record_address};
use crate::delegated_freeze;
use crate::delegated_freeze::{CollectionProof, NftHoldingAccount, collection_proof_ok};
use crate::error::ErrorCode;
use crate::rewards::{AssetClass, RewardMint, compute_reward, mint_overflows, mint_to, reward_amount};
use crate::state::{CustodyKind, StakeAccount, StakeConfigAccount, UserAccount};

verus! {

/// The accounts touched when staking a non-fungible token.
#[derive(Clone, Copy, Debug, PartialEq, Eq, Structural)]
pub struct StakeNFT {
    /// The staking participant (the signing caller).
    pub user: u64,
    /// The staked asset's mint identity.
    pub mint: u64,
    /// The collection the asset must belong to.
    pub collection_mint: u64,
    /// The participant's holding account for the asset.
    pub mint_ata: NftHoldingAccount,
    /// The reward-token mint.
    pub reward_mint: RewardMint,
    /// The participant's reward-token balance.
    pub user_reward_ata: u64,
    /// The collection membership proof for the asset.
    pub metadata: CollectionProof,
    /// The stake position record's slot: `None` until this stake exists.
    pub stake_account: Option<StakeAccount>,
    /// The global configuration registry.
    pub config: StakeConfigAccount,
    /// The participant's ledger.
    pub user_account: UserAccount,
}

impl StakeNFT {
    /// The host-validated account relationships: canonical addressing,
    /// and a holding account that belongs to the caller and holds the
    /// staked asset.
    pub open spec fn wf(&self) -> bool {
        &&& self.config.wf()
        &&& self.reward_mint.wf()
        &&& self.mint_ata.owner == self.user
        &&& self.mint_ata.mint == self.mint
    }
}

/// Whether staking one non-fungible token would wrap a ledger counter,
/// the mint supply, or the participant's reward balance.
pub open spec fn nft_stake_overflows(s: StakeNFT) -> bool {
    let reward = reward_amount(s.config, AssetClass::NonFungible, 1);
    ||| s.user_account.points + reward > u64::MAX
    ||| s.user_account.nft_staked_amount + 1 > u64::MAX
    ||| s.reward_mint.supply + reward > u64::MAX
    ||| s.user_reward_ata + reward > u64::MAX
}

/// The successful outcome of `stake_nft`: the holding account is
/// delegated to the new record and frozen, the record exists with
/// delegated-freeze custody created at `now`, the flat reward has been
/// minted, and the ledger counts one more staked non-fungible token.
pub open spec fn stake_nft_transition(pre: StakeNFT, post: StakeNFT, seed: u64, now: i64) -> bool {
    let reward = reward_amount(pre.config, AssetClass::NonFungible, 1);
    let record_address = stake_record_address(pre.user, pre.mint, seed);
    &&& post.user == pre.user
    &&& post.mint == pre.mint
    &&& post.collection_mint == pre.collection_mint
    &&& post.metadata == pre.metadata
    &&& post.config == pre.config
    &&& post.mint_ata == (NftHoldingAccount {
        delegate: Some(record_address),
        frozen: true,
        ..pre.mint_ata
    })
    &&& post.stake_account == Some(
        StakeAccount {
            owner: pre.user,
            mint: pre.mint,
            seed,
            staked_at: now,
            custody_kind: CustodyKind::DelegatedFreeze,
            address: record_address,
        },
    )
    &&& post.reward_mint == (RewardMint {
        supply: (pre.reward_mint.supply + reward) as u64,
        ..pre.reward_mint
    })
    &&& post.user_reward_ata == pre.user_reward_ata + reward
    &&& post.user_account == (UserAccount {
        points: (pre.user_account.points + reward) as u64,
        nft_staked_amount: (pre.user_account.nft_staked_amount + 1) as u64,
        ..pre.user_account
    })
}

impl StakeNFT {
    /// Stakes the non-fungible token: verifies collection membership,
    /// takes delegated-freeze custody, creates the stake position
    /// record stamped `now`, mints the flat reward, and updates the
    /// ledger. Fails — changing nothing — with `InvalidCollection` when
    /// the membership proof is missing or unverified, with
    /// `AlreadyInitialized` when a record for this stake identity
    /// exists, and with `Overflow` when a counter would wrap.
    pub fn stake_nft(&mut self, seed: u64, now: i64) -> (r: Result<(), ErrorCode>)
        requires
            old(self).wf(),
            !old(self).mint_ata.frozen,
        ensures
            r is Ok <==> collection_proof_ok(old(self).metadata, old(self).collection_mint) && old(
                self,
            ).stake_account is None && !nft_stake_overflows(*old(self)),
            !collection_proof_ok(old(self).metadata, old(self).collection_mint) ==> r == Err::<
                (),
                ErrorCode,
            >(ErrorCode::InvalidCollection),
            collection_proof_ok(old(self).metadata, old(self).collection_mint) && old(
                self,
            ).stake_account is Some ==> r == Err::<(), ErrorCode>(ErrorCode::AlreadyInitialized),
            collection_proof_ok(old(self).metadata, old(self).collection_mint) && old(
                self,
            ).stake_account is None && nft_stake_overflows(*old(self)) ==> r == Err::<
                (),
                ErrorCode,
            >(ErrorCode::Overflow),
            r is Err ==> *final(self) == *old(self),
            r is Ok ==> stake_nft_transition(*old(self), *final(self), seed, now),
    {
        if !(self.metadata.collection == self.collection_mint && self.metadata.verified) {
            return Err(ErrorCode::InvalidCollection);
        }
        if self.stake_account.is_some() {
            return Err(ErrorCode::AlreadyInitialized);
        }
        let reward = match compute_reward(&self.config, AssetClass::NonFungible, 1) {
            Ok(amount) => amount,
            Err(e) => {
                return Err(e);
            },
        };
        // Check every counter before touching any account, so a late
        // overflow cannot leave a partial state change.
        let new_points = match self.user_account.points.checked_add(reward) {
            Some(p) => p,
            None => {
                return Err(ErrorCode::Overflow);
            },
        };
        let new_count = match self.user_account.nft_staked_amount.checked_add(1) {
            Some(c) => c,
            None => {
                return Err(ErrorCode::Overflow);
            },
        };
        if self.reward_mint.supply.checked_add(reward).is_none() {
            return Err(ErrorCode::Overflow);
        }
        if self.user_reward_ata.checked_add(reward).is_none() {
            return Err(ErrorCode::Overflow);
        }
        let (record_address, record_proof) = derive_address(
            Seeds::StakeRecord { owner: self.user, asset: self.mint, seq: seed },
        );
        match delegated_freeze::lock_asset(
            &mut self.mint_ata,
            &self.metadata,
            self.collection_mint,
            record_address,
            &record_proof,
        ) {
            Ok(()) => {},
            Err(e) => {
                return Err(e);
            },
        }
        self.stake_account = Some(
            StakeAccount {
                owner: self.user,
                mint: self.mint,
                seed,
                staked_at: now,
                custody_kind: CustodyKind::DelegatedFreeze,
                address: record_address,
            },
        );
        match self.reward_user(reward) {
            Ok(()) => {},
            Err(e) => {
                return Err(e);
            },
        }
        self.user_account.points = new_points;
        self.user_account.nft_staked_amount = new_count;
        Ok(())
    }

    /// Mints `amount` reward tokens to the participant, with the
    /// configuration registry signing as the mint's authority through
    /// its reconstructed seeds. Fails — changing nothing — with
    /// `InvalidAuthority` when the mint is not controlled by the
    /// registry, and with `Overflow` when the supply or the balance
    /// would wrap.
    pub fn reward_user(&mut self, amount: u64) -> (r: Result<(), ErrorCode>)
        ensures
            r is Ok <==> old(self).reward_mint.authority == config_address() && !mint_overflows(
                old(self).reward_mint,
                old(self).user_reward_ata,
                amount,
            ),
            r is Err ==> *final(self) == *old(self),
            old(self).reward_mint.authority != config_address() ==> r == Err::<(), ErrorCode>(
                ErrorCode::InvalidAuthority,
            ),
            old(self).reward_mint.authority == config_address() && mint_overflows(
                old(self).reward_mint,
                old(self).user_reward_ata,
                amount,
            ) ==> r == Err::<(), ErrorCode>(ErrorCode::Overflow),
            r is Ok ==> *final(self) == (StakeNFT {
                reward_mint: (RewardMint {
                    supply: (old(self).reward_mint.supply + amount) as u64,
                    ..old(self).reward_mint
                }),
                user_reward_ata: (old(self).user_reward_ata + amount) as u64,
                ..*old(self)
            }),
    {
        let (_, authority_proof) = derive_address(Seeds::Config);
        mint_to(&mut self.reward_mint, &authority_proof, &mut self.user_reward_ata, amount)
    }
}

} // verus!
