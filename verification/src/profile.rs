//! The peripheral user profile: an owner-created record with a boolean
//! status, mutable only by its stored owner — the same capability check as
//! the ledger's, with no hash-chain semantics.

use crate::errors::ErrorCode;
use crate::hashing::keys_equal;
use vstd::prelude::*;

verus! {

/// One user's profile: the owning identity, an active flag, and the
/// creation and last-update timestamps.
pub struct UserProfile {
    pub owner: [u8; 32],
    pub active: bool,
    pub created_at: i64,
    pub updated_at: i64,
}

/// Builds a fresh profile for `owner`: active from the start, created now,
/// never yet updated. That no second profile is created for the same owner
/// is the host's allocation to enforce.
pub fn initialize_user(owner: [u8; 32], now: i64) -> (r: UserProfile)
    ensures
        r.owner@ == owner@,
        r.active == true,
        r.created_at == now,
        r.updated_at == 0,
{
    UserProfile { owner, active: true, created_at: now, updated_at: 0 }
}

/// Sets the active flag and stamps the update time when the caller is the
/// stored owner; any other caller fails `Unauthorized` and the profile
/// stands untouched.
pub fn update_status(profile: &mut UserProfile, caller: [u8; 32], active: bool, now: i64) -> (r:
    Result<(), ErrorCode>)
    ensures
        caller@ == old(profile).owner@ ==> {
            &&& r is Ok
            &&& final(profile).owner == old(profile).owner
            &&& final(profile).active == active
            &&& final(profile).created_at == old(profile).created_at
            &&& final(profile).updated_at == now
        },
        caller@ != old(profile).owner@ ==> {
            &&& r == Err::<(), ErrorCode>(ErrorCode::Unauthorized)
            &&& *final(profile) == *old(profile)
        },
{
    if !keys_equal(&caller, &profile.owner) {
        return Err(ErrorCode::Unauthorized);
    }
    profile.active = active;
    profile.updated_at = now;
    Ok(())
}

} // verus!
