//! End-to-end staking scenarios, one per asset class.

use staking_nft_token::delegated_freeze::{CollectionProof, NftHoldingAccount};
use staking_nft_token::error::ErrorCode;
use staking_nft_token::initialize_config::InitializeConfig;
use staking_nft_token::initialize_user::InitUser;
use staking_nft_token::stake_nft::StakeNFT;
use staking_nft_token::stake_sol::StakeSol;
use staking_nft_token::stake_spl::StakeSpl;
use staking_nft_token::unstake_nft::UnStakeNFT;
use staking_nft_token::unstake_sol::UnStakeSOl;
use staking_nft_token::unstake_spl::UnStakeSpL;

fn setup(
    points_per_nft: u8,
    points_per_spl: u8,
    points_per_sol: u8,
    min_freeze_period: u32,
) -> InitializeConfig {
    let mut ic = InitializeConfig { config: None, reward_mint: None };
    ic.initialize_config(points_per_nft, points_per_spl, points_per_sol, min_freeze_period)
        .unwrap();
    ic
}

fn fresh_user(user: u64) -> InitUser {
    let mut iu = InitUser { user, user_account: None };
    iu.init_user().unwrap();
    iu
}

#[test]
fn nft_scenario_flat_reward_and_round_trip() {
    let ic = setup(5, 3, 2, 100);
    let iu = fresh_user(7);

    let mut s = StakeNFT {
        user: 7,
        mint: 42,
        collection_mint: 9,
        mint_ata: NftHoldingAccount { owner: 7, mint: 42, delegate: None, frozen: false },
        reward_mint: ic.reward_mint.unwrap(),
        user_reward_ata: 0,
        metadata: CollectionProof { collection: 9, verified: true },
        stake_account: None,
        config: ic.config.unwrap(),
        user_account: iu.user_account.unwrap(),
    };
    assert_eq!(s.stake_nft(1, 1_000), Ok(()));
    // points_per_nft_stake = 5 => reward minted = 5 * 1_000_000.
    assert_eq!(s.user_reward_ata, 5_000_000);
    assert_eq!(s.user_account.points, 5_000_000);
    assert_eq!(s.reward_mint.supply, 5_000_000);
    assert_eq!(s.user_account.nft_staked_amount, 1);
    assert!(s.mint_ata.frozen);
    assert!(s.mint_ata.delegate.is_some());
    assert!(s.stake_account.is_some());

    let mut u = UnStakeNFT {
        user: 7,
        mint: 42,
        mint_ata: s.mint_ata,
        stake_account: s.stake_account,
        config: s.config,
        user_account: s.user_account,
    };
    // Before the freeze period has elapsed the unstake fails...
    assert_eq!(u.unstake_nft(1_050), Err(ErrorCode::FreezePeriodNotPassed));
    assert_eq!(u.user_account.nft_staked_amount, 1);
    assert!(u.mint_ata.frozen);
    // ...and afterwards it succeeds: same asset, unfrozen, un-delegated.
    assert_eq!(u.unstake_nft(1_200), Ok(()));
    assert_eq!(u.user_account.nft_staked_amount, 0);
    assert!(!u.mint_ata.frozen);
    assert!(u.mint_ata.delegate.is_none());
    assert_eq!(u.mint_ata.owner, 7);
    assert_eq!(u.mint_ata.mint, 42);
    assert!(u.stake_account.is_none());
    // Points are kept: the reward is not clawed back.
    assert_eq!(u.user_account.points, 5_000_000);
}

#[test]
fn native_scenario_amount_proportional_reward() {
    let ic = setup(5, 3, 2, 100);
    let iu = fresh_user(7);

    let mut s = StakeSol {
        user: 7,
        user_lamports: 5_000,
        reward_mint: ic.reward_mint.unwrap(),
        user_reward_ata: 0,
        stake_account: None,
        vault: None,
        config: ic.config.unwrap(),
        user_account: iu.user_account.unwrap(),
    };
    // points_per_sol_stake = 2, stake 1_000 units => reward = 2_000.
    assert_eq!(s.stake_sol(1, 1_000, 500), Ok(()));
    assert_eq!(s.user_reward_ata, 2_000);
    assert_eq!(s.user_account.points, 2_000);
    assert_eq!(s.user_account.sol_staked_amount, 1_000);
    assert_eq!(s.user_lamports, 4_000);
    assert_eq!(s.vault.unwrap().balance, 1_000);

    let mut u = UnStakeSOl {
        user: 7,
        user_lamports: s.user_lamports,
        stake_account: s.stake_account,
        vault: s.vault,
        config: s.config,
        user_account: s.user_account,
    };
    assert_eq!(u.unstake_sol(700), Ok(()));
    // The full escrowed amount is back; the record is destroyed.
    assert_eq!(u.user_lamports, 5_000);
    assert_eq!(u.vault.unwrap().balance, 0);
    assert!(u.stake_account.is_none());
    assert_eq!(u.user_account.sol_staked_amount, 0);
    assert_eq!(u.user_account.points, 2_000);
}

#[test]
fn fungible_scenario_stake_and_reconcile() {
    let ic = setup(5, 3, 2, 100);
    let iu = fresh_user(7);

    let mut s = StakeSpl {
        user: 7,
        mint: 42,
        mint_ata: 800,
        reward_mint: ic.reward_mint.unwrap(),
        user_reward_ata: 0,
        stake_account: None,
        vault_ata: None,
        config: ic.config.unwrap(),
        user_account: iu.user_account.unwrap(),
    };
    // points_per_spl_stake = 3, stake 500 units => reward = 1_500.
    assert_eq!(s.stake_spl(1, 500, 500), Ok(()));
    assert_eq!(s.user_reward_ata, 1_500);
    assert_eq!(s.user_account.points, 1_500);
    assert_eq!(s.user_account.spl_staked_amount, 500);
    assert_eq!(s.mint_ata, 300);
    assert_eq!(s.vault_ata.unwrap().balance, 500);

    let mut u = UnStakeSpL {
        user: 7,
        mint: 42,
        mint_ata: s.mint_ata,
        stake_account: s.stake_account,
        vault_ata: s.vault_ata,
        config: s.config,
        user_account: s.user_account,
    };
    assert_eq!(u.unstake_spl(700), Ok(()));
    // The vault is closed and its full 500-unit balance returned; the
    // staked amount is reconciled back down.
    assert!(u.vault_ata.is_none());
    assert_eq!(u.mint_ata, 800);
    assert!(u.stake_account.is_none());
    assert_eq!(u.user_account.spl_staked_amount, 0);
    assert_eq!(u.user_account.points, 1_500);
}
