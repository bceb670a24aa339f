//! Creation of a participant's ledger.
//!
//! Idempotent per participant identity: the first call initializes all
//! counters to zero, a second call fails with `AlreadyInitialized` and
//! leaves the ledger exactly as it was. All further mutation happens
//! only as a side effect of stake and unstake operations.

use vstd::prelude::*;
use crate::error::ErrorCode;
use crate::state::UserAccount;

verus! {

/// The accounts touched when creating a participant's ledger.
#[derive(Clone, Copy, Debug, PartialEq, Eq, Structural)]
pub struct InitUser {
    /// The participant's identity (the signing caller).
    pub user: u64,
    /// The ledger's slot: `None` until the ledger is created.
    pub user_account: Option<UserAccount>,
}

/// Exactly what one call of `init_user` does: it succeeds if and only
/// if no ledger exists yet, creating a zeroed ledger; otherwise it
/// fails with `AlreadyInitialized` and changes nothing.
pub open spec fn init_user_outcome(pre: InitUser, post: InitUser, r: Result<(), ErrorCode>) -> bool {
    &&& r is Ok <==> pre.user_account is None
    &&& r is Err ==> r == Err::<(), ErrorCode>(ErrorCode::AlreadyInitialized) && post == pre
    &&& r is Ok ==> post == (InitUser {
        user: pre.user,
        user_account: Some(UserAccount::new_spec()),
    })
}

impl InitUser {
    /// Creates the participant's ledger with every counter zero. Fails
    /// with `AlreadyInitialized` — changing nothing — when a ledger for
    /// this participant already exists.
    pub fn init_user(&mut self) -> (r: Result<(), ErrorCode>)
        ensures
            init_user_outcome(*old(self), *final(self), r),
    {
        if self.user_account.is_some() {
            return Err(ErrorCode::AlreadyInitialized);
        }
        self.user_account = Some(
            UserAccount {
                points: 0,
                nft_staked_amount: 0,
                spl_staked_amount: 0,
                sol_staked_amount: 0,
            },
        );
        Ok(())
    }
}

} // verus!
