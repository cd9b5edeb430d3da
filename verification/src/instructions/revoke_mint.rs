use vstd::prelude::*;

verus! {

use crate::error::LaunchTokenError;
use crate::state::{Asset, Identity};

/// The mint-revocation transition. A slot already cleared reports so first;
/// otherwise the caller must currently hold both authorities of the asset —
/// the registry's shared-authority account constraint — before the mint
/// authority is cleared for good.
pub open spec fn revoke_mint_spec(asset: Asset, caller: Identity) -> (
    Asset,
    Result<(), LaunchTokenError>,
) {
    if asset.mint_authority is None {
        (asset, Err(LaunchTokenError::MintAuthorityRevoked))
    } else if asset.mint_authority != Some(caller) || asset.freeze_authority != Some(caller) {
        (asset, Err(LaunchTokenError::UnathorizedUser))
    } else {
        (Asset { mint_authority: None, ..asset }, Ok(()))
    }
}

/// Permanently relinquish the mint authority of an asset. Succeeds exactly
/// when the caller holds both the mint and the freeze authority; afterwards
/// no one can ever mint further supply.
pub fn revoke_mint_handler(asset: &mut Asset, caller: Identity) -> (r: Result<
    (),
    LaunchTokenError,
>)
    ensures
        (*final(asset), r) == revoke_mint_spec(*old(asset), caller),
        r is Ok <==> old(asset).mint_authority == Some(caller) && old(asset).freeze_authority
            == Some(caller),
        old(asset).mint_authority is None ==> r == Err::<(), LaunchTokenError>(
            LaunchTokenError::MintAuthorityRevoked,
        ),
        r is Ok ==> final(asset).mint_authority is None,
        r is Err ==> *final(asset) == *old(asset),
        final(asset).freeze_authority == old(asset).freeze_authority,
        final(asset).supply == old(asset).supply,
        final(asset).decimals == old(asset).decimals,
{
    match asset.mint_authority {
        None => Err(LaunchTokenError::MintAuthorityRevoked),
        Some(holder) => {
            let holds_freeze = match asset.freeze_authority {
                Some(f) => f == caller,
                None => false,
            };
            if holder == caller && holds_freeze {
                asset.mint_authority = None;
                Ok(())
            } else {
                Err(LaunchTokenError::UnathorizedUser)
            }
        },
    }
}

} // verus!
