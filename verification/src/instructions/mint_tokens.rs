use vstd::prelude::*;

verus! {

use crate::error::LaunchTokenError;
use crate::state::{Asset, Holding, Identity};

/// The supplementary-mint transition: the asset and the caller's holding
/// account after the call, and the result handed back. Only the current mint
/// authority may mint; an absent or foreign authority fails the same way.
pub open spec fn mint_tokens_spec(
    asset: Asset,
    holding: Holding,
    caller: Identity,
    amount: u64,
) -> (Asset, Holding, Result<(), LaunchTokenError>) {
    if asset.mint_authority != Some(caller) {
        (asset, holding, Err(LaunchTokenError::MintAuthorityRevoked))
    } else if asset.supply + amount > u64::MAX || holding.amount + amount > u64::MAX {
        (asset, holding, Err(LaunchTokenError::Overflow))
    } else {
        (
            Asset { supply: (asset.supply + amount) as u64, ..asset },
            Holding { amount: (holding.amount + amount) as u64, ..holding },
            Ok(()),
        )
    }
}

/// Mint `amount` further units of the asset into the caller's own holding
/// account. Succeeds exactly when the caller is the current mint authority
/// and neither the supply nor the balance overflows; a failed call changes
/// nothing.
pub fn mint_tokens_handler(
    asset: &mut Asset,
    holding: &mut Holding,
    caller: Identity,
    amount: u64,
) -> (r: Result<(), LaunchTokenError>)
    requires
        old(holding).owner == caller,
    ensures
        (*final(asset), *final(holding), r) == mint_tokens_spec(
            *old(asset),
            *old(holding),
            caller,
            amount,
        ),
        r is Ok <==> old(asset).mint_authority == Some(caller) && old(asset).supply + amount
            <= u64::MAX && old(holding).amount + amount <= u64::MAX,
        old(asset).mint_authority is None ==> r == Err::<(), LaunchTokenError>(
            LaunchTokenError::MintAuthorityRevoked,
        ),
        r is Err ==> *final(asset) == *old(asset) && *final(holding) == *old(holding),
        r is Ok ==> final(asset).supply == old(asset).supply + amount && final(holding).amount
            == old(holding).amount + amount,
        final(asset).mint_authority == old(asset).mint_authority,
        final(asset).freeze_authority == old(asset).freeze_authority,
        final(asset).decimals == old(asset).decimals,
        final(holding).owner == old(holding).owner,
{
    let authorized = match asset.mint_authority {
        Some(holder) => holder == caller,
        None => false,
    };
    if !authorized {
        return Err(LaunchTokenError::MintAuthorityRevoked);
    }
    let new_supply = match asset.supply.checked_add(amount) {
        Some(s) => s,
        None => {
            return Err(LaunchTokenError::Overflow);
        },
    };
    let new_amount = match holding.amount.checked_add(amount) {
        Some(a) => a,
        None => {
            return Err(LaunchTokenError::Overflow);
        },
    };
    asset.supply = new_supply;
    holding.amount = new_amount;
    Ok(())
}

} // verus!
