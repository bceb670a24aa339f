//! The ledger's global guarantees, each proved from the operations'
//! own contracts: exact counter accounting, the inclusive freeze-period
//! boundary, full round-trip custody, and once-only ledger creation.

use vstd::prelude::*;
use crate::error::ErrorCode;
use crate::initialize_user::{InitUser, init_user_outcome};
use crate::rewards::{AssetClass, reward_amount};
use crate::stake_nft::{StakeNFT, nft_stake_overflows, stake_nft_transition};
use crate::stake_sol::{StakeSol, sol_stake_overflows, stake_sol_transition};
use crate::stake_spl::{StakeSpl, spl_stake_overflows, stake_spl_transition};
use crate::timelock::unlockable;
use crate::unstake_nft::{UnStakeNFT, unstake_nft_transition};
use crate::unstake_sol::{UnStakeSOl, unstake_sol_transition};
use crate::unstake_spl::{UnStakeSpL, unstake_spl_transition};

verus! {

/// A successful non-fungible stake moves the ledger by exactly the
/// staked quantity: the staked count grows by one, the points balance
/// by exactly the computed reward — never more, never less, and never
/// past `u64::MAX` (an operation that would overflow fails instead) —
/// and the other asset classes' counters do not move.
pub proof fn lemma_nft_stake_counters_exact(pre: StakeNFT, post: StakeNFT, seed: u64, now: i64)
    requires
        stake_nft_transition(pre, post, seed, now),
        !nft_stake_overflows(pre),
    ensures
        post.user_account.nft_staked_amount == pre.user_account.nft_staked_amount + 1,
        post.user_account.points == pre.user_account.points + reward_amount(
            pre.config,
            AssetClass::NonFungible,
            1,
        ),
        post.user_account.points >= pre.user_account.points,
        post.user_account.spl_staked_amount == pre.user_account.spl_staked_amount,
        post.user_account.sol_staked_amount == pre.user_account.sol_staked_amount,
{
}

/// A successful native-coin stake of `amount` moves the ledger by
/// exactly `amount`, and the points balance by exactly the computed
/// reward, with no overflow and no motion in the other counters.
pub proof fn lemma_sol_stake_counters_exact(
    pre: StakeSol,
    post: StakeSol,
    seed: u64,
    amount: u64,
    now: i64,
)
    requires
        stake_sol_transition(pre, post, seed, amount, now),
        !sol_stake_overflows(pre, amount),
    ensures
        post.user_account.sol_staked_amount == pre.user_account.sol_staked_amount + amount,
        post.user_account.points == pre.user_account.points + reward_amount(
            pre.config,
            AssetClass::Native,
            amount,
        ),
        post.user_account.points >= pre.user_account.points,
        post.user_account.nft_staked_amount == pre.user_account.nft_staked_amount,
        post.user_account.spl_staked_amount == pre.user_account.spl_staked_amount,
{
}

/// A successful fungible stake of `amount` moves the ledger by exactly
/// `amount`, and the points balance by exactly the computed reward,
/// with no overflow and no motion in the other counters.
pub proof fn lemma_spl_stake_counters_exact(
    pre: StakeSpl,
    post: StakeSpl,
    seed: u64,
    amount: u64,
    now: i64,
)
    requires
        stake_spl_transition(pre, post, seed, amount, now),
        !spl_stake_overflows(pre, amount),
    ensures
        post.user_account.spl_staked_amount == pre.user_account.spl_staked_amount + amount,
        post.user_account.points == pre.user_account.points + reward_amount(
            pre.config,
            AssetClass::Fungible,
            amount,
        ),
        post.user_account.points >= pre.user_account.points,
        post.user_account.nft_staked_amount == pre.user_account.nft_staked_amount,
        post.user_account.sol_staked_amount == pre.user_account.sol_staked_amount,
{
}

/// The freeze-period boundary is inclusive: one second before
/// `staked_at + min_freeze_period` the stake is still locked — every
/// unstake then fails with `FreezePeriodNotPassed` — and at exactly
/// `staked_at + min_freeze_period` it is unlockable.
pub proof fn lemma_freeze_boundary(
    staked_at: i64,
    min_freeze_period: u32,
    just_before: i64,
    boundary: i64,
)
    requires
        boundary == staked_at + min_freeze_period,
        just_before == boundary - 1,
    ensures
        !unlockable(staked_at, min_freeze_period, just_before),
        unlockable(staked_at, min_freeze_period, boundary),
{
}

/// Round trip for delegated-freeze custody: staking a non-fungible
/// token and then unstaking it (once the lock period allows the
/// unstake to succeed) hands the exact same asset back to the owner,
/// unfrozen and un-delegated, destroys the stake position record, and
/// restores the staked count.
pub proof fn lemma_nft_round_trip(
    pre: StakeNFT,
    mid: StakeNFT,
    upre: UnStakeNFT,
    upost: UnStakeNFT,
    seed: u64,
    now_stake: i64,
    now_unstake: i64,
)
    requires
        stake_nft_transition(pre, mid, seed, now_stake),
        !nft_stake_overflows(pre),
        // The unstake operation reloads the same accounts the stake
        // left behind.
        upre.user == mid.user,
        upre.mint == mid.mint,
        upre.mint_ata == mid.mint_ata,
        upre.stake_account == mid.stake_account,
        upre.config == mid.config,
        upre.user_account == mid.user_account,
        unstake_nft_transition(upre, upost),
    ensures
        upost.mint_ata.owner == pre.mint_ata.owner,
        upost.mint_ata.mint == pre.mint_ata.mint,
        !upost.mint_ata.frozen,
        upost.mint_ata.delegate is None,
        upost.stake_account is None,
        upost.user_account.nft_staked_amount == pre.user_account.nft_staked_amount,
        upost.user_account.points == mid.user_account.points,
{
}

/// Round trip for vault-escrow custody of the native coin: staking
/// `amount` and then unstaking (once the lock period allows the
/// unstake to succeed) returns the full amount to the owner's balance,
/// destroys the stake position record, and restores the staked amount.
pub proof fn lemma_sol_round_trip(
    pre: StakeSol,
    mid: StakeSol,
    upre: UnStakeSOl,
    upost: UnStakeSOl,
    seed: u64,
    amount: u64,
    now_stake: i64,
    now_unstake: i64,
)
    requires
        stake_sol_transition(pre, mid, seed, amount, now_stake),
        !sol_stake_overflows(pre, amount),
        amount <= pre.user_lamports,
        // The unstake operation reloads the same accounts the stake
        // left behind.
        upre.user == mid.user,
        upre.user_lamports == mid.user_lamports,
        upre.stake_account == mid.stake_account,
        upre.vault == mid.vault,
        upre.config == mid.config,
        upre.user_account == mid.user_account,
        unstake_sol_transition(upre, upost),
    ensures
        upost.user_lamports == pre.user_lamports,
        upost.stake_account is None,
        upost.vault matches Some(v) && v.balance == 0,
        upost.user_account.sol_staked_amount == pre.user_account.sol_staked_amount,
        upost.user_account.points == mid.user_account.points,
{
}

/// Round trip for vault-escrow custody of a fungible token: staking
/// `amount` and then unstaking (once the lock period allows the
/// unstake to succeed) returns the full amount to the owner's token
/// account, closes the vault, destroys the stake position record, and
/// restores the staked amount.
pub proof fn lemma_spl_round_trip(
    pre: StakeSpl,
    mid: StakeSpl,
    upre: UnStakeSpL,
    upost: UnStakeSpL,
    seed: u64,
    amount: u64,
    now_stake: i64,
    now_unstake: i64,
)
    requires
        stake_spl_transition(pre, mid, seed, amount, now_stake),
        !spl_stake_overflows(pre, amount),
        amount <= pre.mint_ata,
        // The unstake operation reloads the same accounts the stake
        // left behind.
        upre.user == mid.user,
        upre.mint == mid.mint,
        upre.mint_ata == mid.mint_ata,
        upre.stake_account == mid.stake_account,
        upre.vault_ata == mid.vault_ata,
        upre.config == mid.config,
        upre.user_account == mid.user_account,
        unstake_spl_transition(upre, upost),
    ensures
        upost.mint_ata == pre.mint_ata,
        upost.stake_account is None,
        upost.vault_ata is None,
        upost.user_account.spl_staked_amount == pre.user_account.spl_staked_amount,
        upost.user_account.points == mid.user_account.points,
{
}

/// Ledger creation is once-only: starting from no ledger, a first call
/// of `init_user` succeeds, and a second call for the same identity
/// fails with `AlreadyInitialized` and leaves the ledger exactly as
/// the first call made it.
pub proof fn lemma_init_user_once_only(
    pre: InitUser,
    mid: InitUser,
    r_first: Result<(), ErrorCode>,
    post: InitUser,
    r_second: Result<(), ErrorCode>,
)
    requires
        pre.user_account is None,
        init_user_outcome(pre, mid, r_first),
        init_user_outcome(mid, post, r_second),
    ensures
        r_first is Ok,
        r_second == Err::<(), ErrorCode>(ErrorCode::AlreadyInitialized),
        post == mid,
{
}

} // verus!
