use vstd::prelude::*;

verus! {

use crate::error::LaunchTokenError;
use crate::state::{Asset, Identity};

/// The freeze-revocation transition, symmetric to mint revocation: a slot
/// already cleared reports so first; otherwise the caller must currently
/// hold both authorities of the asset before the freeze authority is cleared
/// for good.
pub open spec fn revoke_freeze_spec(asset: Asset, caller: Identity) -> (
    Asset,
    Result<(), LaunchTokenError>,
) {
    if asset.freeze_authority is None {
        (asset, Err(LaunchTokenError::FreezeAlreadyRevoked))
    } else if asset.mint_authority != Some(caller) || asset.freeze_authority != Some(caller) {
        (asset, Err(LaunchTokenError::UnathorizedUser))
    } else {
        (Asset { freeze_authority: None, ..asset }, Ok(()))
    }
}

/// Permanently relinquish the freeze authority of an asset. Succeeds exactly
/// when the caller holds both the mint and the freeze authority; afterwards
/// no one can ever freeze holder accounts of this asset.
pub fn revoke_freeze_handler(asset: &mut Asset, caller: Identity) -> (r: Result<
    (),
    LaunchTokenError,
>)
    ensures
        (*final(asset), r) == revoke_freeze_spec(*old(asset), caller),
        r is Ok <==> old(asset).mint_authority == Some(caller) && old(asset).freeze_authority
            == Some(caller),
        old(asset).freeze_authority is None ==> r == Err::<(), LaunchTokenError>(
            LaunchTokenError::FreezeAlreadyRevoked,
        ),
        r is Ok ==> final(asset).freeze_authority is None,
        r is Err ==> *final(asset) == *old(asset),
        final(asset).mint_authority == old(asset).mint_authority,
        final(asset).supply == old(asset).supply,
        final(asset).decimals == old(asset).decimals,
{
    match asset.freeze_authority {
        None => Err(LaunchTokenError::FreezeAlreadyRevoked),
        Some(holder) => {
            let holds_mint = match asset.mint_authority {
                Some(m) => m == caller,
                None => false,
            };
            if holder == caller && holds_mint {
                asset.freeze_authority = None;
                Ok(())
            } else {
                Err(LaunchTokenError::UnathorizedUser)
            }
        },
    }
}

} // verus!
