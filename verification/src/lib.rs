//! A gated asset-issuance and authority-lifecycle manager, modelled as
//! verified transitions over plain ledger values.
//!
//! A single administrator-controlled configuration governs whether new
//! assets may be issued, what fee each issuance costs and where that fee
//! goes; per-asset mint and freeze authorities can be irrevocably
//! relinquished by whoever holds them. Every instruction is all-or-nothing:
//! its contract states the exact outcome, success or failure, for every
//! input, and a failed instruction changes nothing.

use vstd::prelude::*;

pub mod constants;
pub mod error;
pub mod fee;
pub mod instructions;
pub mod laws;
pub mod state;

verus! {

use crate::error::LaunchTokenError;
use crate::instructions::initialize::{initialize_handler, initialize_spec};
use crate::instructions::launch::{launch_handler, launch_spec, LaunchArgs};
use crate::instructions::mint_tokens::{mint_tokens_handler, mint_tokens_spec};
use crate::instructions::revoke_freeze::{revoke_freeze_handler, revoke_freeze_spec};
use crate::instructions::revoke_mint::{revoke_mint_handler, revoke_mint_spec};
use crate::instructions::update_fee::{update_fee_handler, update_fee_spec};
use crate::state::{Asset, Config, Holding, Identity, Issuance};

/// Bootstrap the configuration singleton, exactly once per deployment, by
/// the build-time administrator alone.
pub fn initialize(store: &mut Option<Config>, caller: Identity, bump: u8) -> (r: Result<
    (),
    LaunchTokenError,
>)
    ensures
        (*final(store), r) == initialize_spec(*old(store), caller, bump),
{
    initialize_handler(store, caller, bump)
}

/// Overwrite the per-issuance fee; only the recorded admin may do so.
pub fn update_fee(config: &mut Config, caller: Identity, new_fee: u64) -> (r: Result<
    (),
    LaunchTokenError,
>)
    ensures
        (*final(config), r) == update_fee_spec(*old(config), caller, new_fee),
{
    update_fee_handler(config, caller, new_fee)
}

/// Issue a new asset as one all-or-nothing operation.
pub fn launch_token(
    config: &mut Config,
    issuer: Identity,
    issuer_balance: &mut u64,
    fee_destination: Identity,
    fee_balance: &mut u64,
    args: LaunchArgs,
) -> (r: Result<Issuance, LaunchTokenError>)
    ensures
        (*final(config), *final(issuer_balance), *final(fee_balance), r) == launch_spec(
            *old(config),
            issuer,
            *old(issuer_balance),
            fee_destination,
            *old(fee_balance),
            args,
        ),
{
    launch_handler(config, issuer, issuer_balance, fee_destination, fee_balance, args)
}

/// Mint further supply into the caller's own holding account, as the
/// current mint authority.
pub fn mint_tokens(asset: &mut Asset, holding: &mut Holding, caller: Identity, amount: u64) -> (r:
    Result<(), LaunchTokenError>)
    requires
        old(holding).owner == caller,
    ensures
        (*final(asset), *final(holding), r) == mint_tokens_spec(
            *old(asset),
            *old(holding),
            caller,
            amount,
        ),
{
    mint_tokens_handler(asset, holding, caller, amount)
}

/// Permanently relinquish the mint authority of an asset.
pub fn revoke_mint(asset: &mut Asset, caller: Identity) -> (r: Result<(), LaunchTokenError>)
    ensures
        (*final(asset), r) == revoke_mint_spec(*old(asset), caller),
{
    revoke_mint_handler(asset, caller)
}

/// Permanently relinquish the freeze authority of an asset.
pub fn revoke_freeze(asset: &mut Asset, caller: Identity) -> (r: Result<(), LaunchTokenError>)
    ensures
        (*final(asset), r) == revoke_freeze_spec(*old(asset), caller),
{
    revoke_freeze_handler(asset, caller)
}

} // verus!
