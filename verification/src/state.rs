use vstd::prelude::*;

verus! {

use crate::constants::MAX_DECIMALS;

/// A principal on the ledger. Wallets, fee destinations and authority holders
/// are all identified by such a value; the program only ever compares
/// identities for equality.
#[derive(Clone, Copy, PartialEq, Eq, Structural, Debug, Hash)]
pub struct Identity {
    pub key: u64,
}

/// The configuration singleton that gates issuance. It is created once by the
/// bootstrap instruction and lives for the deployment's lifetime.
#[derive(Clone, Copy, PartialEq, Eq, Structural, Debug)]
pub struct Config {
    /// Global kill switch: issuance is permitted only while this is true.
    pub active: bool,
    /// Recorded once at creation; authorizes fee updates.
    pub admin: Identity,
    /// Destination of every issuance fee.
    pub fee_account: Identity,
    /// Per-issuance fee, in base value units.
    pub fee_amount: u64,
    /// Count of successful issuances; increases by one per issuance and
    /// never decreases.
    pub tokens: u64,
    /// Deterministic-address derivation salt, internal only.
    pub bump: u8,
}

/// An asset record, created once per successful issuance and thereafter
/// mutated only by supplementary minting and by authority revocation.
///
/// Each authority slot either names the principal that currently holds the
/// authority, or is `None` once the authority has been permanently
/// relinquished. The only transition an instruction of this program ever
/// performs on a slot is `Some -> None`.
#[derive(Clone, Copy, PartialEq, Eq, Structural, Debug)]
pub struct Asset {
    /// Number of decimal places; at most `MAX_DECIMALS`.
    pub decimals: u8,
    /// Total supply minted so far.
    pub supply: u64,
    /// Who may mint further supply, if anyone.
    pub mint_authority: Option<Identity>,
    /// Who may freeze holder accounts, if anyone.
    pub freeze_authority: Option<Identity>,
}

impl Asset {
    /// Structural well-formedness of an asset record, established at issuance
    /// and preserved by every instruction.
    pub open spec fn wf(self) -> bool {
        self.decimals <= MAX_DECIMALS
    }
}

/// A holding account: one owner's balance of one asset.
#[derive(Clone, Copy, PartialEq, Eq, Structural, Debug)]
pub struct Holding {
    /// The principal whose balance this is.
    pub owner: Identity,
    /// Balance, in base units of the asset.
    pub amount: u64,
}

/// The descriptive record registered against an asset at issuance; it is
/// written once and never updated by this program.
#[derive(Clone, PartialEq, Eq, Debug)]
pub struct TokenMetadata {
    pub name: String,
    pub symbol: String,
    pub uri: String,
    /// Whether the registry may later accept updates to this record.
    pub mutable: bool,
}

/// Everything a successful issuance creates: the asset record, its metadata,
/// and the issuer's holding account credited with the initial supply.
#[derive(Clone, PartialEq, Eq, Debug)]
pub struct Issuance {
    pub asset: Asset,
    pub metadata: TokenMetadata,
    pub holding: Holding,
}

} // verus!
