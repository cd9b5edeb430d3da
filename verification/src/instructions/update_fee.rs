use vstd::prelude::*;

verus! {

use crate::error::LaunchTokenError;
use crate::state::{Config, Identity};

/// The fee-update transition: the configuration after the call together with
/// the result handed back to the caller. Only the admin recorded in the
/// configuration may change the fee; the new fee is taken as given, with no
/// bounds check.
pub open spec fn update_fee_spec(config: Config, caller: Identity, new_fee: u64) -> (
    Config,
    Result<(), LaunchTokenError>,
) {
    if caller == config.admin {
        (Config { fee_amount: new_fee, ..config }, Ok(()))
    } else {
        (config, Err(LaunchTokenError::UnathorizedUser))
    }
}

/// Overwrite the per-issuance fee. Succeeds exactly when the caller is the
/// recorded admin; a rejected call leaves the configuration untouched.
pub fn update_fee_handler(config: &mut Config, caller: Identity, new_fee: u64) -> (r: Result<
    (),
    LaunchTokenError,
>)
    ensures
        (*final(config), r) == update_fee_spec(*old(config), caller, new_fee),
        r is Ok <==> caller == old(config).admin,
        r is Ok ==> final(config).fee_amount == new_fee,
        r is Err ==> *final(config) == *old(config),
        final(config).admin == old(config).admin,
{
    if caller == config.admin {
        config.fee_amount = new_fee;
        Ok(())
    } else {
        Err(LaunchTokenError::UnathorizedUser)
    }
}

} // verus!
