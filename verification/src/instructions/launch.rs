use vstd::prelude::*;

verus! {

use vstd::string::StrSliceExecFns;

use crate::constants::{MAX_DECIMALS, MAX_NAME_LEN, MAX_SYMBOL_LEN, MAX_URI_LEN};
use crate::error::LaunchTokenError;
use crate::fee::{can_transfer, collect, transfer_ok};
use crate::state::{Asset, Config, Holding, Identity, Issuance, TokenMetadata};

/// The caller-supplied description of one issuance. It is consumed by the
/// instruction and never persisted as such; its strings end up in the
/// metadata record.
#[derive(Clone, Debug)]
pub struct LaunchArgs {
    /// Asset name, at most `MAX_NAME_LEN` characters.
    pub name: String,
    /// Asset symbol, at most `MAX_SYMBOL_LEN` characters.
    pub symbol: String,
    /// Metadata locator, at most `MAX_URI_LEN` characters.
    pub uri: String,
    /// Decimal places of the new asset, at most `MAX_DECIMALS`.
    pub decimals: u8,
    /// Relinquish the mint authority right after the initial mint.
    pub revoke_mint_authority: bool,
    /// Relinquish the freeze authority at issuance.
    pub revoke_freeze_authority: bool,
    /// Whether the metadata record may later be updated.
    pub make_metadata_mutable: bool,
    /// Supply minted into the issuer's holding account at issuance.
    pub initial_mint_amount: u64,
}

/// Argument validation, in the order the instruction applies it. All
/// argument constraints are checked before any value moves.
pub open spec fn validate_args(args: LaunchArgs) -> Result<(), LaunchTokenError> {
    if args.name@.len() > MAX_NAME_LEN {
        Err(LaunchTokenError::NameTooLong)
    } else if args.symbol@.len() > MAX_SYMBOL_LEN {
        Err(LaunchTokenError::SymbolTooLong)
    } else if args.uri@.len() > MAX_URI_LEN {
        Err(LaunchTokenError::UriTooLong)
    } else if args.decimals > MAX_DECIMALS {
        Err(LaunchTokenError::InvalidDecimals)
    } else {
        Ok(())
    }
}

/// Check the argument constraints of an issuance request.
pub fn validate_launch_args(args: &LaunchArgs) -> (r: Result<(), LaunchTokenError>)
    ensures
        r == validate_args(*args),
{
    if args.name.as_str().unicode_len() > MAX_NAME_LEN {
        Err(LaunchTokenError::NameTooLong)
    } else if args.symbol.as_str().unicode_len() > MAX_SYMBOL_LEN {
        Err(LaunchTokenError::SymbolTooLong)
    } else if args.uri.as_str().unicode_len() > MAX_URI_LEN {
        Err(LaunchTokenError::UriTooLong)
    } else if args.decimals > MAX_DECIMALS {
        Err(LaunchTokenError::InvalidDecimals)
    } else {
        Ok(())
    }
}

/// The records a successful issuance creates: an asset whose authorities
/// start at the issuer and are cleared right away where requested, the
/// metadata registered against it, and the issuer's holding account credited
/// with the initial supply.
pub open spec fn launch_records(args: LaunchArgs, issuer: Identity) -> Issuance {
    Issuance {
        asset: Asset {
            decimals: args.decimals,
            supply: args.initial_mint_amount,
            mint_authority: if args.revoke_mint_authority {
                None
            } else {
                Some(issuer)
            },
            freeze_authority: if args.revoke_freeze_authority {
                None
            } else {
                Some(issuer)
            },
        },
        metadata: TokenMetadata {
            name: args.name,
            symbol: args.symbol,
            uri: args.uri,
            mutable: args.make_metadata_mutable,
        },
        holding: Holding { owner: issuer, amount: args.initial_mint_amount },
    }
}

/// The issuance transition: the configuration and the two balances after the
/// call, and the result handed back to the caller. The first failed check
/// decides the error, and a failed issuance has no effect at all.
pub open spec fn launch_spec(
    config: Config,
    issuer: Identity,
    issuer_balance: u64,
    fee_destination: Identity,
    fee_balance: u64,
    args: LaunchArgs,
) -> (Config, u64, u64, Result<Issuance, LaunchTokenError>) {
    if !config.active {
        (config, issuer_balance, fee_balance, Err(LaunchTokenError::ProgramNotActive))
    } else if fee_destination != config.fee_account {
        (config, issuer_balance, fee_balance, Err(LaunchTokenError::InvalidFeeAccount))
    } else if validate_args(args) is Err {
        (config, issuer_balance, fee_balance, Err(validate_args(args)->Err_0))
    } else if !transfer_ok(issuer_balance, fee_balance, config.fee_amount) {
        (config, issuer_balance, fee_balance, Err(LaunchTokenError::FeeTransferFailed))
    } else if config.tokens == u64::MAX {
        (config, issuer_balance, fee_balance, Err(LaunchTokenError::Overflow))
    } else {
        (
            Config { tokens: (config.tokens + 1) as u64, ..config },
            (issuer_balance - config.fee_amount) as u64,
            (fee_balance + config.fee_amount) as u64,
            Ok(launch_records(args, issuer)),
        )
    }
}

/// Issue a new asset as one all-or-nothing operation: gate on the kill
/// switch, validate the fee destination and the arguments, collect the fee,
/// create the asset, metadata and holding records, apply the requested
/// revocations, and count the issuance. The first failed check aborts with
/// no side effects: either every effect is applied, or none.
pub fn launch_handler(
    config: &mut Config,
    issuer: Identity,
    issuer_balance: &mut u64,
    fee_destination: Identity,
    fee_balance: &mut u64,
    args: LaunchArgs,
) -> (r: Result<Issuance, LaunchTokenError>)
    ensures
        (*final(config), *final(issuer_balance), *final(fee_balance), r) == launch_spec(
            *old(config),
            issuer,
            *old(issuer_balance),
            fee_destination,
            *old(fee_balance),
            args,
        ),
        !old(config).active ==> r == Err::<Issuance, LaunchTokenError>(
            LaunchTokenError::ProgramNotActive,
        ),
        r is Err ==> *final(config) == *old(config) && *final(issuer_balance) == *old(
            issuer_balance,
        ) && *final(fee_balance) == *old(fee_balance),
        r is Ok ==> final(config).tokens == old(config).tokens + 1,
        r is Ok ==> *final(issuer_balance) == *old(issuer_balance) - old(config).fee_amount
            && *final(fee_balance) == *old(fee_balance) + old(config).fee_amount,
        r matches Ok(issued) ==> issued == launch_records(args, issuer) && issued.asset.wf(),
        final(config).admin == old(config).admin && final(config).active == old(config).active
            && final(config).fee_account == old(config).fee_account && final(config).fee_amount
            == old(config).fee_amount && final(config).bump == old(config).bump,
        final(config).tokens >= old(config).tokens,
{
    if !config.active {
        return Err(LaunchTokenError::ProgramNotActive);
    }
    if fee_destination != config.fee_account {
        return Err(LaunchTokenError::InvalidFeeAccount);
    }
    match validate_launch_args(&args) {
        Ok(()) => (),
        Err(e) => {
            return Err(e);
        },
    }
    let fee = config.fee_amount;
    if !can_transfer(*issuer_balance, *fee_balance, fee) {
        return Err(LaunchTokenError::FeeTransferFailed);
    }
    let new_tokens = match config.tokens.checked_add(1) {
        Some(t) => t,
        None => {
            return Err(LaunchTokenError::Overflow);
        },
    };
    match collect(issuer_balance, fee_balance, fee) {
        Ok(()) => (),
        Err(e) => {
            return Err(e);
        },
    }
    let asset = Asset {
        decimals: args.decimals,
        supply: args.initial_mint_amount,
        mint_authority: if args.revoke_mint_authority {
            None
        } else {
            Some(issuer)
        },
        freeze_authority: if args.revoke_freeze_authority {
            None
        } else {
            Some(issuer)
        },
    };
    let holding = Holding { owner: issuer, amount: args.initial_mint_amount };
    let metadata = TokenMetadata {
        name: args.name,
        symbol: args.symbol,
        uri: args.uri,
        mutable: args.make_metadata_mutable,
    };
    config.tokens = new_tokens;
    Ok(Issuance { asset, metadata, holding })
}

} // verus!
