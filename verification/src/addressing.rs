//! Deterministic, stateless-authority addressing.
//!
//! Every program-owned account lives at an address derived from a seed
//! structure, and the program "signs" for such an account by
//! reconstructing the identical seeds: a signing capability is a value
//! obtainable only from the seeds themselves, never from a private key.
//! Addresses are modeled as the seed structures they are derived from,
//! which makes derivation injective by construction: distinct seeds
//! give distinct addresses.

use vstd::prelude::*;

verus! {

/// A seed structure identifying one program-owned account.
#[derive(Clone, Copy, Debug, PartialEq, Eq, Structural)]
pub enum Seeds {
    /// The global configuration registry (a singleton).
    Config,
    /// The reward-token mint, owned by the configuration registry.
    RewardMint,
    /// The per-participant ledger of `user`.
    UserLedger { user: u64 },
    /// The stake position record for `owner` staking `asset`,
    /// disambiguated by `seq`.
    StakeRecord { owner: u64, asset: u64, seq: u64 },
    /// The escrow vault owned by the stake position record with the
    /// same identity.
    Vault { owner: u64, asset: u64, seq: u64 },
}

/// The address derived from a seed structure.
#[derive(Clone, Copy, Debug, PartialEq, Eq, Structural)]
pub struct DerivedAddress {
    pub seeds: Seeds,
}

/// The authority to sign for the account at the derived address with
/// the same seeds. It carries no secret: holding it means having
/// reconstructed the seed structure.
#[derive(Clone, Copy, Debug, PartialEq, Eq, Structural)]
pub struct SigningCapability {
    pub seeds: Seeds,
}

impl SigningCapability {
    /// Whether this capability signs for the account at `address`.
    pub open spec fn signs_for(&self, address: DerivedAddress) -> bool {
        self.seeds == address.seeds
    }
}

/// Derives the unique address for `seeds`, together with the matching
/// signing capability.
pub fn derive_address(seeds: Seeds) -> (r: (DerivedAddress, SigningCapability))
    ensures
        r.0 == (DerivedAddress { seeds }),
        r.1 == (SigningCapability { seeds }),
        r.1.signs_for(r.0),
{
    (DerivedAddress { seeds }, SigningCapability { seeds })
}

/// The address of the configuration registry.
pub open spec fn config_address() -> DerivedAddress {
    DerivedAddress { seeds: Seeds::Config }
}

/// The address of the reward-token mint.
pub open spec fn reward_mint_address() -> DerivedAddress {
    DerivedAddress { seeds: Seeds::RewardMint }
}

/// The address of the stake position record for `owner`, `asset`, `seq`.
pub open spec fn stake_record_address(owner: u64, asset: u64, seq: u64) -> DerivedAddress {
    DerivedAddress { seeds: Seeds::StakeRecord { owner, asset, seq } }
}

/// The address of the escrow vault of the stake position record for
/// `owner`, `asset`, `seq`.
pub open spec fn vault_address(owner: u64, asset: u64, seq: u64) -> DerivedAddress {
    DerivedAddress { seeds: Seeds::Vault { owner, asset, seq } }
}

/// Address derivation is injective: two derived addresses collide only
/// when their seed structures are identical.
pub proof fn lemma_derivation_injective(a: Seeds, b: Seeds)
    ensures
        (DerivedAddress { seeds: a }) == (DerivedAddress { seeds: b }) ==> a == b,
{
}

} // verus!
