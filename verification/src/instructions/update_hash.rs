use vstd::prelude::*;

use crate::errors::GsdHubError;
use crate::state::developer::DeveloperProfile;
use crate::state::pubkey::Pubkey;

verus! {

/// The records that a change of the profile hash reads and changes.
#[derive(Clone, Copy, Debug)]
pub struct UpdateProfileHash {
    pub developer_profile: DeveloperProfile,
    /// Who asks for the change
    pub authority: Pubkey,
}

/// Replaces the hash of the profile at the time `now`. Only the profile's
/// owner may do so.
pub fn handler(ctx: &mut UpdateProfileHash, new_hash: [u8; 32], now: i64) -> (r: Result<
    (),
    GsdHubError,
>)
    ensures
        match r {
            Ok(()) => {
                &&& old(ctx).authority == old(ctx).developer_profile.authority
                &&& *final(ctx) == (UpdateProfileHash {
                    developer_profile: DeveloperProfile {
                        profile_hash: new_hash,
                        updated_at: now,
                        ..old(ctx).developer_profile
                    },
                    ..*old(ctx)
                })
            },
            Err(e) => {
                &&& old(ctx).authority != old(ctx).developer_profile.authority
                &&& e == GsdHubError::Unauthorized
                &&& *final(ctx) == *old(ctx)
            },
        },
{
    if ctx.developer_profile.authority != ctx.authority {
        return Err(GsdHubError::Unauthorized);
    }
    ctx.developer_profile.profile_hash = new_hash;
    ctx.developer_profile.updated_at = now;
    Ok(())
}

} // verus!
