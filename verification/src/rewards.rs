//! The reward engine: computes the reward-token amount owed for a
//! stake and mints it, with the configuration registry acting as the
//! mint's signing authority.

use vstd::prelude::*;
use crate::addressing::{DerivedAddress, SigningCapability, config_address, reward_mint_address};
use crate::error::ErrorCode;
use crate::state::StakeConfigAccount;

verus! {

/// Reward-token base units per reward point for non-fungible stakes:
/// the mint carries six decimal places, so one point is one whole token.
pub const FIXED_SCALE: u64 = 1_000_000;

/// The three asset classes a participant can stake.
#[derive(Clone, Copy, Debug, PartialEq, Eq, Structural)]
pub enum AssetClass {
    NonFungible,
    Fungible,
    Native,
}

/// The reward-token mint. Its minting authority is bound to the
/// configuration registry's derived address, so only code that
/// reconstructs the registry's seeds can mint.
#[derive(Clone, Copy, Debug, PartialEq, Eq, Structural)]
pub struct RewardMint {
    /// The mint's own derived address.
    pub address: DerivedAddress,
    /// Who may authorize minting: the configuration registry.
    pub authority: DerivedAddress,
    /// Total reward tokens minted so far.
    pub supply: u64,
}

impl RewardMint {
    /// The canonical addressing of the reward mint: it lives at the
    /// reward-mint address and is controlled by the registry.
    pub open spec fn wf(&self) -> bool {
        &&& self.address == reward_mint_address()
        &&& self.authority == config_address()
    }
}

/// The mathematical reward owed for staking `metric` of `class`:
/// flat `points_per_nft_stake * FIXED_SCALE` for a non-fungible stake
/// (independent of duration), and rate times quantity for fungible and
/// native stakes.
pub open spec fn reward_amount(config: StakeConfigAccount, class: AssetClass, metric: u64) -> int {
    match class {
        AssetClass::NonFungible => config.points_per_nft_stake as int * FIXED_SCALE as int,
        AssetClass::Fungible => config.points_per_spl_stake as int * metric as int,
        AssetClass::Native => config.points_per_sol_stake as int * metric as int,
    }
}

/// Computes the reward owed for staking `metric` units of `class`,
/// failing closed when the product would not fit in 64 bits. For a
/// non-fungible stake the result always fits.
pub fn compute_reward(config: &StakeConfigAccount, class: AssetClass, metric: u64) -> (r: Result<
    u64,
    ErrorCode,
>)
    ensures
        r is Ok <==> reward_amount(*config, class, metric) <= u64::MAX,
        r matches Ok(amount) ==> amount == reward_amount(*config, class, metric),
        r matches Err(e) ==> e == ErrorCode::Overflow,
        class is NonFungible ==> r is Ok,
{
    let rate: u64 = match class {
        AssetClass::NonFungible => config.points_per_nft_stake as u64,
        AssetClass::Fungible => config.points_per_spl_stake as u64,
        AssetClass::Native => config.points_per_sol_stake as u64,
    };
    let quantity: u64 = match class {
        AssetClass::NonFungible => FIXED_SCALE,
        AssetClass::Fungible => metric,
        AssetClass::Native => metric,
    };
    match rate.checked_mul(quantity) {
        Some(amount) => Ok(amount),
        None => Err(ErrorCode::Overflow),
    }
}

/// Whether minting `amount` would wrap the mint's supply or the
/// recipient's balance.
pub open spec fn mint_overflows(mint: RewardMint, recipient_balance: u64, amount: u64) -> bool {
    ||| mint.supply + amount > u64::MAX
    ||| recipient_balance + amount > u64::MAX
}

/// Mints `amount` reward tokens to `recipient_balance`, authorized by
/// `authority_proof`. Fails with `InvalidAuthority` unless the proof
/// signs for the mint's stored authority, and with `Overflow` when the
/// supply or the recipient balance would wrap; on failure nothing
/// changes.
pub fn mint_to(
    mint: &mut RewardMint,
    authority_proof: &SigningCapability,
    recipient_balance: &mut u64,
    amount: u64,
) -> (r: Result<(), ErrorCode>)
    ensures
        r is Ok <==> authority_proof.signs_for(old(mint).authority) && !mint_overflows(
            *old(mint),
            *old(recipient_balance),
            amount,
        ),
        !authority_proof.signs_for(old(mint).authority) ==> r == Err::<(), ErrorCode>(
            ErrorCode::InvalidAuthority,
        ),
        authority_proof.signs_for(old(mint).authority) && mint_overflows(
            *old(mint),
            *old(recipient_balance),
            amount,
        ) ==> r == Err::<(), ErrorCode>(ErrorCode::Overflow),
        r is Ok ==> *final(mint) == (RewardMint {
            supply: (old(mint).supply + amount) as u64,
            ..*old(mint)
        }) && *final(recipient_balance) == old(recipient_balance) + amount,
        r is Err ==> *final(mint) == *old(mint) && *final(recipient_balance) == *old(
            recipient_balance,
        ),
{
    if !(authority_proof.seeds == mint.authority.seeds) {
        return Err(ErrorCode::InvalidAuthority);
    }
    let new_supply = match mint.supply.checked_add(amount) {
        Some(s) => s,
        None => {
            return Err(ErrorCode::Overflow);
        },
    };
    let new_balance = match recipient_balance.checked_add(amount) {
        Some(b) => b,
        None => {
            return Err(ErrorCode::Overflow);
        },
    };
    mint.supply = new_supply;
    *recipient_balance = new_balance;
    Ok(())
}

} // verus!
