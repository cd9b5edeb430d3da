use vstd::prelude::*;

verus! {

use crate::constants::ADMIN_KEY;
use crate::error::LaunchTokenError;
use crate::state::{Config, Identity};

/// The identity fixed at build time that alone may bootstrap the
/// configuration.
pub open spec fn admin_identity() -> Identity {
    Identity { key: ADMIN_KEY }
}

/// The configuration record as bootstrap creates it: issuance enabled, the
/// caller recorded as both admin and fee destination, no fee, and an
/// issuance counter at zero.
pub open spec fn fresh_config(caller: Identity, bump: u8) -> Config {
    Config {
        active: true,
        admin: caller,
        fee_account: caller,
        fee_amount: 0,
        tokens: 0,
        bump,
    }
}

/// The bootstrap transition on the configuration store. Only the build-time
/// administrator may run it, and only while no configuration exists;
/// re-invocation is rejected, never treated as a no-op.
pub open spec fn initialize_spec(store: Option<Config>, caller: Identity, bump: u8) -> (
    Option<Config>,
    Result<(), LaunchTokenError>,
) {
    if caller != admin_identity() {
        (store, Err(LaunchTokenError::UnathorizedUser))
    } else if store is Some {
        (store, Err(LaunchTokenError::AlreadyInitialized))
    } else {
        (Some(fresh_config(caller, bump)), Ok(()))
    }
}

/// Create the configuration singleton, exactly once per deployment. A second
/// call fails and leaves the existing configuration unchanged.
pub fn initialize_handler(store: &mut Option<Config>, caller: Identity, bump: u8) -> (r: Result<
    (),
    LaunchTokenError,
>)
    ensures
        (*final(store), r) == initialize_spec(*old(store), caller, bump),
        r is Ok <==> caller == admin_identity() && *old(store) is None,
        r is Ok ==> *final(store) == Some(fresh_config(caller, bump)),
        r is Err ==> *final(store) == *old(store),
{
    if caller.key != ADMIN_KEY {
        return Err(LaunchTokenError::UnathorizedUser);
    }
    match store {
        Some(_) => Err(LaunchTokenError::AlreadyInitialized),
        None => {
            *store = Some(
                Config {
                    active: true,
                    admin: caller,
                    fee_account: caller,
                    fee_amount: 0,
                    tokens: 0,
                    bump,
                },
            );
            Ok(())
        },
    }
}

} // verus!
