//! The freeze-period boundary, creation idempotence, and one input for
//! every error variant.

use staking_nft_token::addressing::{Seeds, SigningCapability, derive_address};
use staking_nft_token::delegated_freeze::{CollectionProof, NftHoldingAccount};
use staking_nft_token::error::ErrorCode;
use staking_nft_token::initialize_config::InitializeConfig;
use staking_nft_token::initialize_user::InitUser;
use staking_nft_token::rewards::{AssetClass, RewardMint, compute_reward, mint_to};
use staking_nft_token::stake_nft::StakeNFT;
use staking_nft_token::stake_sol::StakeSol;
use staking_nft_token::state::UserAccount;
use staking_nft_token::timelock::is_unlockable;
use staking_nft_token::unstake_sol::UnStakeSOl;

fn setup() -> InitializeConfig {
    let mut ic = InitializeConfig { config: None, reward_mint: None };
    ic.initialize_config(5, 3, 2, 100).unwrap();
    ic
}

fn zero_ledger() -> UserAccount {
    UserAccount { points: 0, nft_staked_amount: 0, spl_staked_amount: 0, sol_staked_amount: 0 }
}

#[test]
fn freeze_boundary_is_inclusive() {
    // staked_at + min_freeze_period - 1 is locked; the boundary itself
    // is unlockable.
    assert!(!is_unlockable(1_000, 100, 1_099));
    assert!(is_unlockable(1_000, 100, 1_100));
    assert!(is_unlockable(1_000, 100, 1_101));
    // Extreme timestamps do not wrap the elapsed-time computation.
    assert!(is_unlockable(i64::MIN, u32::MAX, i64::MAX));
    assert!(!is_unlockable(i64::MAX, 1, i64::MIN));

    let ic = setup();
    let mut s = StakeSol {
        user: 7,
        user_lamports: 5_000,
        reward_mint: ic.reward_mint.unwrap(),
        user_reward_ata: 0,
        stake_account: None,
        vault: None,
        config: ic.config.unwrap(),
        user_account: zero_ledger(),
    };
    assert_eq!(s.stake_sol(1, 1_000, 1_000), Ok(()));
    let mut u = UnStakeSOl {
        user: 7,
        user_lamports: s.user_lamports,
        stake_account: s.stake_account,
        vault: s.vault,
        config: s.config,
        user_account: s.user_account,
    };
    assert_eq!(u.unstake_sol(1_099), Err(ErrorCode::FreezePeriodNotPassed));
    assert_eq!(u.unstake_sol(1_100), Ok(()));
}

#[test]
fn create_participant_twice_fails_second_time() {
    let mut iu = InitUser { user: 7, user_account: None };
    assert_eq!(iu.init_user(), Ok(()));
    let created = iu.user_account;
    assert_eq!(created.unwrap(), zero_ledger());
    assert_eq!(iu.init_user(), Err(ErrorCode::AlreadyInitialized));
    // The failed call leaves the ledger unchanged.
    assert_eq!(iu.user_account, created);
    assert_eq!(iu.user, 7);
}

#[test]
fn create_config_twice_fails_second_time() {
    let mut ic = setup();
    let before = ic;
    assert_eq!(ic.initialize_config(9, 9, 9, 9), Err(ErrorCode::AlreadyInitialized));
    assert_eq!(ic, before);
}

#[test]
fn stake_with_existing_record_fails() {
    let ic = setup();
    let mut s = StakeSol {
        user: 7,
        user_lamports: 5_000,
        reward_mint: ic.reward_mint.unwrap(),
        user_reward_ata: 0,
        stake_account: None,
        vault: None,
        config: ic.config.unwrap(),
        user_account: zero_ledger(),
    };
    assert_eq!(s.stake_sol(1, 1_000, 500), Ok(()));
    let after_first = s;
    assert_eq!(s.stake_sol(1, 1_000, 600), Err(ErrorCode::AlreadyInitialized));
    assert_eq!(s, after_first);
}

#[test]
fn invalid_collection_is_rejected() {
    let ic = setup();
    let holding = NftHoldingAccount { owner: 7, mint: 42, delegate: None, frozen: false };
    let mut s = StakeNFT {
        user: 7,
        mint: 42,
        collection_mint: 9,
        mint_ata: holding,
        reward_mint: ic.reward_mint.unwrap(),
        user_reward_ata: 0,
        metadata: CollectionProof { collection: 9, verified: false },
        stake_account: None,
        config: ic.config.unwrap(),
        user_account: zero_ledger(),
    };
    // Membership asserted but unverified.
    assert_eq!(s.stake_nft(1, 50), Err(ErrorCode::InvalidCollection));
    assert_eq!(s.mint_ata, holding);
    assert!(s.stake_account.is_none());
    // Wrong collection.
    s.metadata = CollectionProof { collection: 8, verified: true };
    assert_eq!(s.stake_nft(1, 50), Err(ErrorCode::InvalidCollection));
    assert_eq!(s.user_account, zero_ledger());
}

#[test]
fn overflow_fails_closed() {
    let ic = setup();
    let mut s = StakeSol {
        user: 7,
        user_lamports: 5_000,
        reward_mint: ic.reward_mint.unwrap(),
        user_reward_ata: 0,
        stake_account: None,
        vault: None,
        config: ic.config.unwrap(),
        user_account: UserAccount {
            points: u64::MAX - 1,
            nft_staked_amount: 0,
            spl_staked_amount: 0,
            sol_staked_amount: 0,
        },
    };
    let before = s;
    // The 2_000-point reward would wrap the points balance.
    assert_eq!(s.stake_sol(1, 1_000, 500), Err(ErrorCode::Overflow));
    assert_eq!(s, before);
    // The reward computation itself can also overflow.
    assert_eq!(
        compute_reward(&before.config, AssetClass::Native, u64::MAX),
        Err(ErrorCode::Overflow)
    );
}

#[test]
fn unstake_by_wrong_caller_fails() {
    let ic = setup();
    let mut s = StakeSol {
        user: 7,
        user_lamports: 5_000,
        reward_mint: ic.reward_mint.unwrap(),
        user_reward_ata: 0,
        stake_account: None,
        vault: None,
        config: ic.config.unwrap(),
        user_account: zero_ledger(),
    };
    assert_eq!(s.stake_sol(1, 1_000, 500), Ok(()));
    let mut u = UnStakeSOl {
        user: 8,  // not the record's owner
        user_lamports: 0,
        stake_account: s.stake_account,
        vault: s.vault,
        config: s.config,
        user_account: zero_ledger(),
    };
    assert_eq!(u.unstake_sol(10_000), Err(ErrorCode::InvalidAuthority));
    assert_eq!(u.user_lamports, 0);
    assert!(u.stake_account.is_some());
}

#[test]
fn mint_requires_registry_authority() {
    let ic = setup();
    let mut mint: RewardMint = ic.reward_mint.unwrap();
    let mut balance: u64 = 0;
    let wrong = SigningCapability { seeds: Seeds::UserLedger { user: 1 } };
    assert_eq!(mint_to(&mut mint, &wrong, &mut balance, 10), Err(ErrorCode::InvalidAuthority));
    assert_eq!(mint.supply, 0);
    assert_eq!(balance, 0);
    let (_, registry) = derive_address(Seeds::Config);
    assert_eq!(mint_to(&mut mint, &registry, &mut balance, 10), Ok(()));
    assert_eq!(mint.supply, 10);
    assert_eq!(balance, 10);
}

#[test]
fn unstake_underflow_and_overflow_fail_closed() {
    let ic = setup();
    let mut s = StakeSol {
        user: 7,
        user_lamports: 5_000,
        reward_mint: ic.reward_mint.unwrap(),
        user_reward_ata: 0,
        stake_account: None,
        vault: None,
        config: ic.config.unwrap(),
        user_account: zero_ledger(),
    };
    assert_eq!(s.stake_sol(1, 1_000, 500), Ok(()));

    // A ledger counting less than the escrowed amount would underflow.
    let mut u = UnStakeSOl {
        user: 7,
        user_lamports: 0,
        stake_account: s.stake_account,
        vault: s.vault,
        config: s.config,
        user_account: zero_ledger(),
    };
    let before = u;
    assert_eq!(u.unstake_sol(10_000), Err(ErrorCode::Overflow));
    assert_eq!(u, before);

    // A destination balance with no room for the escrow would wrap.
    let mut u = UnStakeSOl {
        user: 7,
        user_lamports: u64::MAX,
        stake_account: s.stake_account,
        vault: s.vault,
        config: s.config,
        user_account: s.user_account,
    };
    let before = u;
    assert_eq!(u.unstake_sol(10_000), Err(ErrorCode::Overflow));
    assert_eq!(u, before);
}

#[test]
fn derived_addresses_are_distinct_per_seeds() {
    let (config_addr, _) = derive_address(Seeds::Config);
    let (mint_addr, _) = derive_address(Seeds::RewardMint);
    let (rec_a, _) = derive_address(Seeds::StakeRecord { owner: 1, asset: 2, seq: 0 });
    let (rec_b, _) = derive_address(Seeds::StakeRecord { owner: 1, asset: 2, seq: 1 });
    let (vault_a, _) = derive_address(Seeds::Vault { owner: 1, asset: 2, seq: 0 });
    assert_ne!(config_addr, mint_addr);
    assert_ne!(rec_a, rec_b);
    assert_ne!(rec_a, vault_a);
    let (rec_a_again, proof) = derive_address(Seeds::StakeRecord { owner: 1, asset: 2, seq: 0 });
    assert_eq!(rec_a, rec_a_again);
    assert_eq!(proof.seeds, rec_a.seeds);
}

#[test]
fn compute_reward_exact_values() {
    let ic = setup();
    let config = ic.config.unwrap();
    // Flat per non-fungible stake, scaled by the mint's six decimals.
    assert_eq!(compute_reward(&config, AssetClass::NonFungible, 1), Ok(5_000_000));
    assert_eq!(compute_reward(&config, AssetClass::NonFungible, 9_999), Ok(5_000_000));
    // Amount-proportional for fungible and native stakes.
    assert_eq!(compute_reward(&config, AssetClass::Fungible, 500), Ok(1_500));
    assert_eq!(compute_reward(&config, AssetClass::Native, 1_000), Ok(2_000));
    assert_eq!(compute_reward(&config, AssetClass::Native, 0), Ok(0));
}
