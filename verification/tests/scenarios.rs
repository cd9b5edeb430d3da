use launch_token::constants::ADMIN_KEY;
use launch_token::error::LaunchTokenError;
use launch_token::instructions::launch::LaunchArgs;
use launch_token::state::{Config, Identity};
use launch_token::{initialize, launch_token as launch, mint_tokens, revoke_mint, update_fee};

fn coin_args() -> LaunchArgs {
    LaunchArgs {
        name: "Coin".to_owned(),
        symbol: "CN".to_owned(),
        uri: "https://x/y".to_owned(),
        decimals: 6,
        revoke_mint_authority: true,
        revoke_freeze_authority: false,
        make_metadata_mutable: false,
        initial_mint_amount: 5_000_000,
    }
}

/// Admin bootstraps, raises the fee to 1000, then user A launches a coin
/// whose mint authority is relinquished at issuance.
#[test]
fn full_issuance_with_fee_and_immediate_mint_revocation() {
    let admin = Identity { key: ADMIN_KEY };
    let user_a = Identity { key: 1001 };

    let mut store: Option<Config> = None;
    assert_eq!(initialize(&mut store, admin, 7), Ok(()));
    let mut cfg = store.expect("bootstrapped");
    assert_eq!(cfg.fee_amount, 0);
    assert!(cfg.active);

    assert_eq!(update_fee(&mut cfg, admin, 1000), Ok(()));

    let mut balance_a: u64 = 10_000;
    let mut fee_balance: u64 = 500;
    let r = launch(
        &mut cfg,
        user_a,
        &mut balance_a,
        admin, // the configured fee destination: bootstrap records the admin
        &mut fee_balance,
        coin_args(),
    );
    let issued = r.expect("all checks pass");

    // 1000 units moved from A to the fee destination
    assert_eq!(balance_a, 9_000);
    assert_eq!(fee_balance, 1_500);
    // the asset: 6 decimals, initial supply minted to A, mint authority
    // cleared, freeze authority still A
    assert_eq!(issued.asset.decimals, 6);
    assert_eq!(issued.asset.supply, 5_000_000);
    assert_eq!(issued.asset.mint_authority, None);
    assert_eq!(issued.asset.freeze_authority, Some(user_a));
    // metadata registered immutable, holding account credited
    assert!(!issued.metadata.mutable);
    assert_eq!(issued.metadata.name, "Coin");
    assert_eq!(issued.metadata.symbol, "CN");
    assert_eq!(issued.metadata.uri, "https://x/y");
    assert_eq!(issued.holding.owner, user_a);
    assert_eq!(issued.holding.amount, 5_000_000);
    // one successful issuance counted
    assert_eq!(cfg.tokens, 1);
}

/// The same setup with the kill switch off: the launch is rejected outright
/// and nothing moves.
#[test]
fn inactive_program_rejects_issuance_with_no_side_effects() {
    let admin = Identity { key: ADMIN_KEY };
    let user_a = Identity { key: 1001 };

    let mut store: Option<Config> = None;
    assert_eq!(initialize(&mut store, admin, 7), Ok(()));
    let mut cfg = store.expect("bootstrapped");
    assert_eq!(update_fee(&mut cfg, admin, 1000), Ok(()));
    cfg.active = false;

    let mut balance_a: u64 = 10_000;
    let mut fee_balance: u64 = 500;
    let r = launch(
        &mut cfg,
        user_a,
        &mut balance_a,
        admin,
        &mut fee_balance,
        coin_args(),
    );
    assert_eq!(r, Err(LaunchTokenError::ProgramNotActive));
    assert_eq!(balance_a, 10_000);
    assert_eq!(fee_balance, 500);
    assert_eq!(cfg.tokens, 0);
}

/// The counter counts successes alone: three successful launches among
/// assorted failures leave it at exactly three.
#[test]
fn counter_counts_only_successful_launches() {
    let admin = Identity { key: ADMIN_KEY };
    let user = Identity { key: 2002 };
    let fee_dest = Identity { key: 3003 };

    let mut cfg = Config {
        active: true,
        admin,
        fee_account: fee_dest,
        fee_amount: 100,
        tokens: 0,
        bump: 7,
    };
    let mut balance: u64 = 250; // enough for two fees, not three
    let mut fee_balance: u64 = 0;

    let mut args = coin_args();
    args.revoke_mint_authority = false;

    // failure: wrong fee destination
    assert!(launch(&mut cfg, user, &mut balance, user, &mut fee_balance, args.clone()).is_err());
    // success
    assert!(launch(&mut cfg, user, &mut balance, fee_dest, &mut fee_balance, args.clone()).is_ok());
    // failure: name too long
    let mut bad = args.clone();
    bad.name = "n".repeat(33);
    assert!(launch(&mut cfg, user, &mut balance, fee_dest, &mut fee_balance, bad).is_err());
    // success
    assert!(launch(&mut cfg, user, &mut balance, fee_dest, &mut fee_balance, args.clone()).is_ok());
    // failure: funds exhausted (50 left, fee is 100)
    assert!(launch(&mut cfg, user, &mut balance, fee_dest, &mut fee_balance, args.clone()).is_err());
    // the admin refills the treasury by lowering the fee to zero
    assert_eq!(update_fee(&mut cfg, admin, 0), Ok(()));
    // success
    assert!(launch(&mut cfg, user, &mut balance, fee_dest, &mut fee_balance, args).is_ok());

    assert_eq!(cfg.tokens, 3);
    assert_eq!(balance, 50);
    assert_eq!(fee_balance, 200);
}

/// Once the mint authority is gone it stays gone: minting and a second
/// revocation both report it revoked, whoever asks.
#[test]
fn mint_revocation_is_permanent() {
    let admin = Identity { key: ADMIN_KEY };
    let user = Identity { key: 2002 };

    let mut cfg = Config {
        active: true,
        admin,
        fee_account: admin,
        fee_amount: 0,
        tokens: 0,
        bump: 7,
    };
    let mut balance: u64 = 0;
    let mut fee_balance: u64 = 0;
    let mut args = coin_args();
    args.revoke_mint_authority = false;
    args.initial_mint_amount = 10;

    let issued = launch(&mut cfg, user, &mut balance, admin, &mut fee_balance, args)
        .expect("launch succeeds");
    let mut asset = issued.asset;
    let mut holding = issued.holding;

    // while held, the authority can mint
    assert_eq!(mint_tokens(&mut asset, &mut holding, user, 5), Ok(()));
    assert_eq!(asset.supply, 15);

    assert_eq!(revoke_mint(&mut asset, user), Ok(()));
    assert_eq!(asset.mint_authority, None);

    assert_eq!(
        mint_tokens(&mut asset, &mut holding, user, 5),
        Err(LaunchTokenError::MintAuthorityRevoked)
    );
    assert_eq!(
        revoke_mint(&mut asset, user),
        Err(LaunchTokenError::MintAuthorityRevoked)
    );
    let other = Identity { key: 9 };
    assert_eq!(
        revoke_mint(&mut asset, other),
        Err(LaunchTokenError::MintAuthorityRevoked)
    );
    assert_eq!(asset.supply, 15);
    assert_eq!(holding.amount, 15);
}
