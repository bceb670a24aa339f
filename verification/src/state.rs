//! The persisted entities: configuration registry, participant ledger,
//! and stake position record.

use vstd::prelude::*;
use crate::addressing::{DerivedAddress, config_address, reward_mint_address, stake_record_address};

verus! {

/// The reserved mint identity under which native-coin stakes are
/// recorded: the native coin has no mint of its own.
pub const NATIVE_MINT: u64 = 0;

/// The global configuration registry. Created once per deployment and
/// read-only thereafter: the reward rates and the freeze period are set
/// exactly at creation.
#[derive(Clone, Copy, Debug, PartialEq, Eq, Structural)]
pub struct StakeConfigAccount {
    /// Reward points per staked non-fungible token (flat per stake).
    pub points_per_nft_stake: u8,
    /// Reward points per staked native-coin unit.
    pub points_per_sol_stake: u8,
    /// Reward points per staked fungible-token unit.
    pub points_per_spl_stake: u8,
    /// Seconds that must elapse before an unstake is permitted.
    pub min_freeze_period: u32,
    /// The registry's own derived address; the registry signs as the
    /// reward mint's authority by reconstructing these seeds.
    pub address: DerivedAddress,
    /// The derived address of the reward-token mint.
    pub reward_mint: DerivedAddress,
}

impl StakeConfigAccount {
    /// The addressing material is the canonical one for the registry.
    pub open spec fn wf(&self) -> bool {
        &&& self.address == config_address()
        &&& self.reward_mint == reward_mint_address()
    }
}

/// The per-participant ledger: cumulative reward points and the
/// quantity currently staked per asset class. Each counter changes
/// only by the exact quantity moved in a stake or unstake, and the
/// arithmetic fails closed instead of wrapping.
#[derive(Clone, Copy, Debug, PartialEq, Eq, Structural)]
pub struct UserAccount {
    /// Cumulative reward-points balance; never decreased here.
    pub points: u64,
    /// Non-fungible tokens currently staked.
    pub nft_staked_amount: u64,
    /// Fungible-token units currently staked.
    pub spl_staked_amount: u64,
    /// Native-coin units currently staked.
    pub sol_staked_amount: u64,
}

impl UserAccount {
    /// A fresh ledger: every counter zero.
    pub open spec fn new_spec() -> UserAccount {
        UserAccount { points: 0, nft_staked_amount: 0, spl_staked_amount: 0, sol_staked_amount: 0 }
    }
}

/// How a stake position holds custody of its asset.
#[derive(Clone, Copy, Debug, PartialEq, Eq, Structural)]
pub enum CustodyKind {
    /// The asset stays in the owner's holding account, with the record
    /// authorized as delegate and the account frozen in place. Used for
    /// non-fungible assets.
    DelegatedFreeze,
    /// The asset is moved into a vault account owned by the record.
    /// Used for fungible and native assets.
    VaultEscrow,
}

/// One active stake. Created atomically with the custody transfer at
/// stake time and destroyed atomically with the custody reversal at
/// unstake time; a record is never re-locked.
#[derive(Clone, Copy, Debug, PartialEq, Eq, Structural)]
pub struct StakeAccount {
    /// The participant who staked the asset.
    pub owner: u64,
    /// The staked asset's mint identity.
    pub mint: u64,
    /// Disambiguates several stakes of the same asset by one owner.
    pub seed: u64,
    /// The trusted-clock time at which the stake was created.
    pub staked_at: i64,
    /// The custody strategy holding the asset.
    pub custody_kind: CustodyKind,
    /// The record's own derived address: its addressing material for
    /// reclaiming custody later.
    pub address: DerivedAddress,
}

impl StakeAccount {
    /// The record's address is derived from its own identity.
    pub open spec fn wf(&self) -> bool {
        self.address == stake_record_address(self.owner, self.mint, self.seed)
    }
}

} // verus!
