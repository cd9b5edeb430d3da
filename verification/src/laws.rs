use vstd::prelude::*;

verus! {

use crate::error::LaunchTokenError;
use crate::instructions::initialize::fresh_config;
use crate::instructions::launch::{launch_spec, LaunchArgs};
use crate::instructions::mint_tokens::mint_tokens_spec;
use crate::instructions::revoke_freeze::revoke_freeze_spec;
use crate::instructions::revoke_mint::revoke_mint_spec;
use crate::instructions::update_fee::update_fee_spec;
use crate::state::{Asset, Config, Holding, Identity, Issuance};

/// All the caller-varying inputs of one issuance attempt.
pub struct LaunchAttempt {
    pub issuer: Identity,
    pub issuer_balance: u64,
    pub fee_destination: Identity,
    pub fee_balance: u64,
    pub args: LaunchArgs,
}

/// The full outcome of one issuance attempt against a given configuration.
pub open spec fn attempt_outcome(config: Config, attempt: LaunchAttempt) -> (
    Config,
    u64,
    u64,
    Result<Issuance, LaunchTokenError>,
) {
    launch_spec(
        config,
        attempt.issuer,
        attempt.issuer_balance,
        attempt.fee_destination,
        attempt.fee_balance,
        attempt.args,
    )
}

/// Whether one issuance attempt against a given configuration succeeds.
pub open spec fn attempt_succeeds(config: Config, attempt: LaunchAttempt) -> bool {
    attempt_outcome(config, attempt).3 is Ok
}

/// The configuration left behind by a sequence of issuance attempts, run in
/// order, each against the configuration the previous one left.
pub open spec fn config_after_attempts(config: Config, attempts: Seq<LaunchAttempt>) -> Config
    decreases attempts.len(),
{
    if attempts.len() == 0 {
        config
    } else {
        config_after_attempts(attempt_outcome(config, attempts[0]).0, attempts.drop_first())
    }
}

/// How many of a sequence of issuance attempts succeed, each judged against
/// the configuration the previous attempts left.
pub open spec fn successful_attempts(config: Config, attempts: Seq<LaunchAttempt>) -> nat
    decreases attempts.len(),
{
    if attempts.len() == 0 {
        0
    } else {
        (if attempt_succeeds(config, attempts[0]) {
            1nat
        } else {
            0nat
        }) + successful_attempts(attempt_outcome(config, attempts[0]).0, attempts.drop_first())
    }
}

/// The issuance counter counts exactly the successful issuances: over any
/// sequence of launch attempts, successful or failed, it grows by the number
/// of successes and by nothing else — in particular it never decreases.
pub proof fn lemma_counter_counts_successes(config: Config, attempts: Seq<LaunchAttempt>)
    ensures
        config_after_attempts(config, attempts).tokens == config.tokens + successful_attempts(
            config,
            attempts,
        ),
    decreases attempts.len(),
{
    if attempts.len() == 0 {
    } else {
        let next = attempt_outcome(config, attempts[0]).0;
        lemma_counter_counts_successes(next, attempts.drop_first());
    }
}

/// Starting from a freshly bootstrapped configuration, whose counter is
/// zero, the counter equals the number of successful issuances.
pub proof fn lemma_counter_after_bootstrap(
    caller: Identity,
    bump: u8,
    attempts: Seq<LaunchAttempt>,
)
    ensures
        config_after_attempts(fresh_config(caller, bump), attempts).tokens == successful_attempts(
            fresh_config(caller, bump),
            attempts,
        ),
{
    lemma_counter_counts_successes(fresh_config(caller, bump), attempts);
}

/// A successful mint revocation is terminal: on the asset it leaves behind,
/// any supplementary mint and any second revocation fail with
/// `MintAuthorityRevoked` and leave the asset as it is.
pub proof fn lemma_mint_revocation_is_irreversible(
    asset: Asset,
    caller: Identity,
    later_caller: Identity,
    holding: Holding,
    amount: u64,
)
    requires
        revoke_mint_spec(asset, caller).1 is Ok,
    ensures
        ({
            let revoked = revoke_mint_spec(asset, caller).0;
            &&& mint_tokens_spec(revoked, holding, later_caller, amount) == (
                revoked,
                holding,
                Err::<(), LaunchTokenError>(LaunchTokenError::MintAuthorityRevoked),
            )
            &&& revoke_mint_spec(revoked, later_caller) == (
                revoked,
                Err::<(), LaunchTokenError>(LaunchTokenError::MintAuthorityRevoked),
            )
        }),
{
}

/// No instruction ever restores a relinquished authority: a slot that is
/// empty before a supplementary mint or a revocation is still empty after.
pub proof fn lemma_authority_never_restored(
    asset: Asset,
    holding: Holding,
    caller: Identity,
    amount: u64,
)
    ensures
        asset.mint_authority is None ==> mint_tokens_spec(
            asset,
            holding,
            caller,
            amount,
        ).0.mint_authority is None && revoke_mint_spec(asset, caller).0.mint_authority is None
            && revoke_freeze_spec(asset, caller).0.mint_authority is None,
        asset.freeze_authority is None ==> mint_tokens_spec(
            asset,
            holding,
            caller,
            amount,
        ).0.freeze_authority is None && revoke_mint_spec(asset, caller).0.freeze_authority is None
            && revoke_freeze_spec(asset, caller).0.freeze_authority is None,
{
}

/// Issuance conserves value: the fee moves between the two balances, so
/// their sum is the same after every attempt, successful or failed — no
/// value is created, and none is lost to a failed attempt.
pub proof fn lemma_fee_is_conserved(config: Config, attempt: LaunchAttempt)
    ensures
        attempt_outcome(config, attempt).1 + attempt_outcome(config, attempt).2
            == attempt.issuer_balance + attempt.fee_balance,
{
}

/// Well-formedness of an asset record is preserved: a supplementary mint or
/// a revocation never changes the decimals, so an asset that was well formed
/// stays so.
pub proof fn lemma_wf_is_preserved(
    asset: Asset,
    holding: Holding,
    caller: Identity,
    amount: u64,
)
    requires
        asset.wf(),
    ensures
        mint_tokens_spec(asset, holding, caller, amount).0.wf(),
        revoke_mint_spec(asset, caller).0.wf(),
        revoke_freeze_spec(asset, caller).0.wf(),
{
}

/// The configuration's standing fields are stable: no instruction but
/// bootstrap ever changes the admin, and issuance touches nothing of the
/// configuration but the counter, which it never lowers.
pub proof fn lemma_config_fields_stable(
    config: Config,
    caller: Identity,
    new_fee: u64,
    attempt: LaunchAttempt,
)
    ensures
        update_fee_spec(config, caller, new_fee).0.admin == config.admin,
        update_fee_spec(config, caller, new_fee).0.tokens == config.tokens,
        update_fee_spec(config, caller, new_fee).0.active == config.active,
        update_fee_spec(config, caller, new_fee).0.fee_account == config.fee_account,
        attempt_outcome(config, attempt).0.admin == config.admin,
        attempt_outcome(config, attempt).0.active == config.active,
        attempt_outcome(config, attempt).0.fee_account == config.fee_account,
        attempt_outcome(config, attempt).0.fee_amount == config.fee_amount,
        attempt_outcome(config, attempt).0.tokens >= config.tokens,
{
}

} // verus!
