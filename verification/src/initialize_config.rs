//! Creation of the global configuration registry.
//!
//! Callable once per deployment: a second call for the same registry
//! identity fails with `AlreadyInitialized` and changes nothing. The
//! operation also creates the reward-token mint, binding its minting
//! authority to the registry's own deterministic address, so only the
//! registry — not any private key — can authorize minting. No update
//! operation exists: the rates and the freeze period are read-only
//! after creation.

use vstd::prelude::*;
use crate::addressing::{Seeds, config_address, derive_address, reward_mint_address};
use crate::error::ErrorCode;
use crate::rewards::RewardMint;
use crate::state::StakeConfigAccount;

verus! {

/// The configuration registry as `initialize_config` creates it.
pub open spec fn created_config(
    points_per_nft_stake: u8,
    points_per_spl_stake: u8,
    points_per_sol_stake: u8,
    min_freeze_period: u32,
) -> StakeConfigAccount {
    StakeConfigAccount {
        points_per_nft_stake,
        points_per_sol_stake,
        points_per_spl_stake,
        min_freeze_period,
        address: config_address(),
        reward_mint: reward_mint_address(),
    }
}

/// The reward-token mint as `initialize_config` creates it: empty, and
/// controlled by the configuration registry.
pub open spec fn created_reward_mint() -> RewardMint {
    RewardMint { address: reward_mint_address(), authority: config_address(), supply: 0 }
}

/// The accounts touched when creating the configuration registry.
#[derive(Clone, Copy, Debug, PartialEq, Eq, Structural)]
pub struct InitializeConfig {
    /// The registry's slot: `None` until the registry is created.
    pub config: Option<StakeConfigAccount>,
    /// The reward-token mint's slot, created together with the registry.
    pub reward_mint: Option<RewardMint>,
}

impl InitializeConfig {
    /// Creates the configuration registry with the given reward rates
    /// and minimum freeze period, and the reward-token mint under the
    /// registry's authority. Fails with `AlreadyInitialized` — changing
    /// nothing — when the registry already exists.
    pub fn initialize_config(
        &mut self,
        points_per_nft_stake: u8,
        points_per_spl_stake: u8,
        points_per_sol_stake: u8,
        min_freeze_period: u32,
    ) -> (r: Result<(), ErrorCode>)
        requires
            old(self).config is None ==> old(self).reward_mint is None,
        ensures
            r is Ok <==> old(self).config is None,
            r is Err ==> r == Err::<(), ErrorCode>(ErrorCode::AlreadyInitialized) && *final(self)
                == *old(self),
            r is Ok ==> *final(self) == (InitializeConfig {
                config: Some(
                    created_config(
                        points_per_nft_stake,
                        points_per_spl_stake,
                        points_per_sol_stake,
                        min_freeze_period,
                    ),
                ),
                reward_mint: Some(created_reward_mint()),
            }),
    {
        if self.config.is_some() {
            return Err(ErrorCode::AlreadyInitialized);
        }
        let (registry_address, _) = derive_address(Seeds::Config);
        let (mint_address, _) = derive_address(Seeds::RewardMint);
        self.config = Some(
            StakeConfigAccount {
                points_per_nft_stake,
                points_per_sol_stake,
                points_per_spl_stake,
                min_freeze_period,
                address: registry_address,
                reward_mint: mint_address,
            },
        );
        // The mint's authority is the registry's derived address: no
        // private key can ever sign a mint.
        self.reward_mint = Some(
            RewardMint { address: mint_address, authority: registry_address, supply: 0 },
        );
        Ok(())
    }
}

} // verus!
