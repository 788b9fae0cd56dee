use vstd::prelude::*;

use crate::errors::GovernanceError;
use crate::state::delegation_record::DelegationRecord;
use crate::state::pubkey::Pubkey;

verus! {

/// The record that a revocation reads and changes.
#[derive(Clone, Copy, Debug)]
pub struct RevokeDelegation {
    /// The delegator's record
    pub delegation_record: DelegationRecord,
    /// Who takes their voting power back
    pub delegator: Pubkey,
}

/// Revokes the delegation: the record is no longer active. Only an active
/// record can be revoked; the caller then gives up the record's place, so
/// that the delegator may delegate anew.
pub fn handler(ctx: &mut RevokeDelegation) -> (r: Result<(), GovernanceError>)
    ensures
        match r {
            Ok(()) => {
                &&& old(ctx).delegation_record.is_active
                &&& *final(ctx) == (RevokeDelegation {
                    delegation_record: DelegationRecord {
                        is_active: false,
                        ..old(ctx).delegation_record
                    },
                    ..*old(ctx)
                })
            },
            Err(e) => {
                &&& !old(ctx).delegation_record.is_active
                &&& e == GovernanceError::NoDelegation
                &&& *final(ctx) == *old(ctx)
            },
        },
{
    if !ctx.delegation_record.is_active {
        return Err(GovernanceError::NoDelegation);
    }
    ctx.delegation_record.is_active = false;
    Ok(())
}

} // verus!
